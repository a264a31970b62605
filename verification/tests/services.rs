use entity_store::error::ApiError;
use entity_store::models::account::Account;
use entity_store::models::project::Project;
use entity_store::repository::account_repository::AccountRepository;
use entity_store::repository::project_repository::ProjectRepository;
use entity_store::service::account_service::AccountService;
use entity_store::service::project_service::ProjectService;

fn account(wallet: &str, email: &str, name: &str) -> Account {
    Account {
        id: None,
        wallet_address: wallet.to_string(),
        email: email.to_string(),
        account_name: name.to_string(),
        project_ids: vec![],
        created_at: 0,
        updated_at: 0,
    }
}

fn project(name: &str) -> Project {
    Project {
        id: None,
        name: name.to_string(),
        telegram_chat_id: None,
        facebook_credentials: vec![],
        package: None,
        expires_at: None,
        is_active: true,
        is_logging: false,
        created_at: 0,
        updated_at: 0,
    }
}

fn account_service() -> AccountService {
    AccountService::new(AccountRepository::new())
}

fn project_service() -> ProjectService {
    ProjectService::new(ProjectRepository::new())
}

fn bad_request_message(r: Result<Account, ApiError>) -> String {
    match r {
        Err(e @ ApiError::BadRequest(_)) => e.message(),
        other => panic!("expected a BadRequest, got {:?}", other.map(|a| a.email)),
    }
}

#[test]
fn create_stamps_timestamps_and_id() {
    let mut service = account_service();
    let created = service
        .create_account_at(account("0xabc", "a@x.com", "A"), 1_000)
        .expect("creation must succeed");
    assert!(created.id.is_some());
    assert_eq!(created.created_at, 1_000);
    assert_eq!(created.updated_at, 1_000);
    assert_eq!(created.wallet_address, "0xabc");
    assert_eq!(created.email, "a@x.com");
    assert_eq!(created.account_name, "A");
}

#[test]
fn create_rejects_empty_email() {
    let mut service = account_service();
    let msg = bad_request_message(service.create_account_at(account("0xabc", "", "A"), 1_000));
    assert_eq!(msg, "Email cannot be empty");
    assert!(service.get_all_accounts().expect("get all").is_empty());
}

#[test]
fn create_rejects_empty_wallet_address() {
    let mut service = account_service();
    let msg = bad_request_message(service.create_account_at(account("", "a@x.com", "A"), 1_000));
    assert_eq!(msg, "Wallet address cannot be empty");
}

#[test]
fn create_rejects_duplicate_email() {
    let mut service = account_service();
    service
        .create_account_at(account("0xabc", "a@x.com", "A"), 1_000)
        .expect("first creation must succeed");
    let msg = bad_request_message(
        service.create_account_at(account("0xdef", "a@x.com", "B"), 2_000),
    );
    assert_eq!(msg, "Email already exists");
    assert_eq!(service.get_all_accounts().expect("get all").len(), 1);
}

#[test]
fn create_allows_distinct_emails() {
    let mut service = account_service();
    service
        .create_account_at(account("0xabc", "a@x.com", "A"), 1_000)
        .expect("first creation must succeed");
    service
        .create_account_at(account("0xdef", "b@x.com", "B"), 2_000)
        .expect("second creation must succeed");
    assert_eq!(service.get_all_accounts().expect("get all").len(), 2);
}

#[test]
fn update_rejects_empty_fields() {
    let mut service = account_service();
    let created = service
        .create_account_at(account("0xabc", "a@x.com", "A"), 1_000)
        .expect("creation must succeed");
    let id = created.id.unwrap();

    let msg = bad_request_message(service.update_account_at(&id, account("0xabc", "", "A"), 2_000));
    assert_eq!(msg, "Email cannot be empty");
    let msg = bad_request_message(
        service.update_account_at(&id, account("", "a@x.com", "A"), 2_000),
    );
    assert_eq!(msg, "Wallet address cannot be empty");
}

#[test]
fn project_create_rejects_empty_name() {
    let mut service = project_service();
    let result = service.create_project_at(project(""), 1_000);
    match result {
        Err(e @ ApiError::BadRequest(_)) => {
            assert_eq!(e.message(), "Project name cannot be empty");
        },
        other => panic!("expected a BadRequest, got {:?}", other.map(|p| p.name)),
    }
    assert!(service.get_all_projects().expect("get all").is_empty());
}

#[test]
fn project_update_rejects_empty_name() {
    let mut service = project_service();
    let created = service.create_project_at(project("P"), 1_000).expect("create");
    let id = created.id.unwrap();
    let result = service.update_project_at(&id, project(""), 2_000);
    assert!(matches!(result, Err(ApiError::BadRequest(_))));
}

#[test]
fn account_lifecycle_scenario() {
    let mut service = account_service();

    // Create: identifier assigned, both timestamps equal the creation time.
    let created = service
        .create_account_at(account("0xabc", "a@x.com", "A"), 1_000)
        .expect("creation must succeed");
    assert!(created.id.is_some());
    assert_eq!(created.created_at, created.updated_at);
    let id = created.id.unwrap();

    // Update with the same fields but a new name: the name changes, the
    // identifier stays, and the update timestamp moves past creation.
    let updated = service
        .update_account_at(&id, account("0xabc", "a@x.com", "B"), 2_000)
        .expect("update must succeed");
    assert_eq!(updated.account_name, "B");
    assert_eq!(updated.id, Some(id));
    assert!(updated.updated_at > updated.created_at);
    assert_eq!(updated.created_at, created.created_at);

    // Delete reports a removal; the account is gone afterwards.
    assert!(matches!(service.delete_account(&id), Ok(true)));
    let fetched = service.get_account(&id);
    assert!(matches!(fetched, Err(ApiError::NotFound)));
}

#[test]
fn delete_is_idempotent() {
    let mut service = account_service();
    let created = service
        .create_account_at(account("0xabc", "a@x.com", "A"), 1_000)
        .expect("creation must succeed");
    let id = created.id.unwrap();

    assert!(matches!(service.delete_account(&id), Ok(true)));
    // A second delete of the same identifier reports false, not an error.
    assert!(matches!(service.delete_account(&id), Ok(false)));
}

#[test]
fn deleted_account_leaves_get_all() {
    let mut service = account_service();
    let kept = service
        .create_account_at(account("0xabc", "a@x.com", "A"), 1_000)
        .expect("first creation");
    let gone = service
        .create_account_at(account("0xdef", "b@x.com", "B"), 1_500)
        .expect("second creation");
    let gone_id = gone.id.unwrap();

    assert!(matches!(service.delete_account(&gone_id), Ok(true)));

    let all = service.get_all_accounts().expect("get all");
    assert_eq!(all.len(), 1);
    assert_eq!(all[0].id, kept.id);
    assert!(all.iter().all(|a| a.id != Some(gone_id)));
}

#[test]
fn project_lifecycle_scenario() {
    let mut service = project_service();
    let created = service.create_project_at(project("P"), 1_000).expect("create");
    let id = created.id.unwrap();
    assert_eq!(created.created_at, created.updated_at);

    let updated = service
        .update_project_at(&id, project("Q"), 2_000)
        .expect("update must succeed");
    assert_eq!(updated.name, "Q");
    assert_eq!(updated.id, Some(id));
    assert_eq!(updated.created_at, 1_000);
    assert_eq!(updated.updated_at, 2_000);

    assert!(matches!(service.delete_project(&id), Ok(true)));
    assert!(matches!(service.delete_project(&id), Ok(false)));
    assert!(matches!(service.get_project(&id), Err(ApiError::NotFound)));
}

#[test]
fn clock_backed_create_sets_equal_timestamps() {
    let mut service = account_service();
    let created = service
        .create_account(account("0xabc", "a@x.com", "A"))
        .expect("creation must succeed");
    assert!(created.id.is_some());
    assert_eq!(created.created_at, created.updated_at);
}
