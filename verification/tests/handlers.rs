use entity_store::error::ApiError;
use entity_store::handlers::account_handler;
use entity_store::handlers::project_handler;
use entity_store::models::account::Account;
use entity_store::models::project::Project;
use entity_store::repository::account_repository::AccountRepository;
use entity_store::repository::project_repository::ProjectRepository;
use entity_store::service::account_service::AccountService;
use entity_store::service::project_service::ProjectService;

fn account(wallet: &str, email: &str, name: &str) -> Account {
    Account {
        id: None,
        wallet_address: wallet.to_string(),
        email: email.to_string(),
        account_name: name.to_string(),
        project_ids: vec![],
        created_at: 0,
        updated_at: 0,
    }
}

fn project(name: &str) -> Project {
    Project {
        id: None,
        name: name.to_string(),
        telegram_chat_id: None,
        facebook_credentials: vec![],
        package: None,
        expires_at: None,
        is_active: true,
        is_logging: false,
        created_at: 0,
        updated_at: 0,
    }
}

#[test]
fn malformed_id_is_a_client_fault_not_a_server_fault() {
    let service = AccountService::new(AccountRepository::new());
    let result = account_handler::get_account(&service, "not-a-valid-id-format");
    match result {
        Err(e) => {
            assert_eq!(e.message(), "Invalid ID format");
            assert_eq!(e.status_code(), 400);
            assert_ne!(e.status_code(), 500);
        },
        Ok(_) => panic!("a malformed identifier must be rejected"),
    }
}

#[test]
fn malformed_project_id_is_a_client_fault() {
    let mut service = ProjectService::new(ProjectRepository::new());
    let get = project_handler::get_project(&service, "123");
    assert!(matches!(get, Err(ApiError::BadRequest(_))));
    let del = project_handler::delete_project(&mut service, "123");
    assert!(matches!(del, Err(ApiError::BadRequest(_))));
    let upd = project_handler::update_project(&mut service, "123", project("P"));
    assert!(matches!(upd, Err(ApiError::BadRequest(_))));
}

#[test]
fn account_handler_round_trip_through_hex_ids() {
    let mut service = AccountService::new(AccountRepository::new());

    let created = account_handler::create_account(&mut service, account("0xabc", "a@x.com", "A"))
        .expect("creation must succeed");
    let hex = created.id.expect("id must be assigned").to_hex();
    assert_eq!(hex.len(), 24);

    // The rendered identifier leads back to the same stored account.
    let fetched = account_handler::get_account(&service, &hex).expect("lookup must succeed");
    assert_eq!(fetched.id, created.id);
    assert_eq!(fetched.email, "a@x.com");

    let updated =
        account_handler::update_account(&mut service, &hex, account("0xabc", "a@x.com", "B"))
            .expect("update must succeed");
    assert_eq!(updated.account_name, "B");
    assert_eq!(updated.id, created.id);

    let all = account_handler::get_all_accounts(&service).expect("get all");
    assert_eq!(all.len(), 1);

    let deleted = account_handler::delete_account(&mut service, &hex).expect("delete");
    assert!(deleted);
    let missing = account_handler::get_account(&service, &hex);
    assert!(matches!(missing, Err(ApiError::NotFound)));
}

#[test]
fn project_handler_round_trip_through_hex_ids() {
    let mut service = ProjectService::new(ProjectRepository::new());

    let created = project_handler::create_project(&mut service, project("P"))
        .expect("creation must succeed");
    let hex = created.id.expect("id must be assigned").to_hex();

    let fetched = project_handler::get_project(&service, &hex).expect("lookup must succeed");
    assert_eq!(fetched.id, created.id);
    assert_eq!(fetched.name, "P");

    let updated = project_handler::update_project(&mut service, &hex, project("Q"))
        .expect("update must succeed");
    assert_eq!(updated.name, "Q");

    let all = project_handler::get_all_projects(&service).expect("get all");
    assert_eq!(all.len(), 1);

    let deleted = project_handler::delete_project(&mut service, &hex).expect("delete");
    assert!(deleted);
    assert!(matches!(project_handler::get_project(&service, &hex), Err(ApiError::NotFound)));
}

#[test]
fn unknown_well_formed_id_is_not_found() {
    let service = AccountService::new(AccountRepository::new());
    let result = account_handler::get_account(&service, "0123456789abcdef01234567");
    match result {
        Err(e) => {
            assert!(matches!(e, ApiError::NotFound));
            assert_eq!(e.status_code(), 404);
        },
        Ok(_) => panic!("nothing is stored under this identifier"),
    }
}
