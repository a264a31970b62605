use entity_store::error::ApiError;
use entity_store::id::ObjectId;
use entity_store::models::account::Account;
use entity_store::repository::account_repository::AccountRepository;

fn create_test_account() -> Account {
    Account {
        id: None,
        wallet_address: "0x123456789".to_string(),
        email: "test@example.com".to_string(),
        account_name: "Test Account".to_string(),
        project_ids: vec![],
        created_at: 1_700_000_000_000,
        updated_at: 1_700_000_000_000,
    }
}

fn nonexistent_id() -> ObjectId {
    ObjectId::parse_str("ffffffffffffffffffffffff").expect("hex id must parse")
}

#[test]
fn account_repository_test_test_crud_operations() {
    let mut repo = AccountRepository::new();

    // Test Create
    let test_account = create_test_account();
    let created_account = repo.create(test_account.clone()).expect("Failed to create account");

    assert!(created_account.id.is_some());
    assert_eq!(created_account.email, test_account.email);
    assert_eq!(created_account.wallet_address, test_account.wallet_address);

    // Test Get by ID
    let account_id = created_account.id.unwrap();
    let retrieved_account = repo.get_by_id(&account_id).expect("Failed to get account by ID");

    assert_eq!(retrieved_account.id, Some(account_id));
    assert_eq!(retrieved_account.email, test_account.email);

    // Test Update
    let mut updated_account = retrieved_account.clone();
    updated_account.account_name = "Updated Test Account".to_string();

    let result = repo.update(&account_id, updated_account.clone()).expect(
        "Failed to update account",
    );

    assert_eq!(result.account_name, "Updated Test Account");

    // Test Get All
    let all_accounts = repo.get_all().expect("Failed to get all accounts");

    assert_eq!(all_accounts.len(), 1);
    assert_eq!(all_accounts[0].id, Some(account_id));

    // Test Delete
    let delete_result = repo.delete(&account_id).expect("Failed to delete account");

    assert!(delete_result);

    // Verify deletion
    let all_accounts_after_delete = repo.get_all().expect(
        "Failed to get all accounts after delete",
    );

    assert!(all_accounts_after_delete.is_empty());
}

#[test]
fn test_get_nonexistent_account() {
    let repo = AccountRepository::new();

    let result = repo.get_by_id(&nonexistent_id());

    assert!(matches!(result, Err(ApiError::NotFound)));
}

#[test]
fn test_update_nonexistent_account() {
    let mut repo = AccountRepository::new();

    let test_account = create_test_account();

    let result = repo.update(&nonexistent_id(), test_account);

    assert!(matches!(result, Err(ApiError::NotFound)));
}

#[test]
fn test_delete_nonexistent_account() {
    let mut repo = AccountRepository::new();

    let result = repo.delete(&nonexistent_id());

    assert!(matches!(result, Ok(false)));
}

#[test]
fn update_preserves_id_and_created_at() {
    let mut repo = AccountRepository::new();
    let created = repo.create(create_test_account()).expect("create");
    let id = created.id.unwrap();

    let mut replacement = create_test_account();
    replacement.email = "new@example.com".to_string();
    replacement.created_at = 42;
    replacement.updated_at = 1_700_000_000_999;

    let updated = repo.update(&id, replacement).expect("update");
    assert_eq!(updated.id, Some(id));
    assert_eq!(updated.created_at, created.created_at);
    assert_eq!(updated.updated_at, 1_700_000_000_999);
    assert_eq!(updated.email, "new@example.com");

    let fetched = repo.get_by_id(&id).expect("get after update");
    assert_eq!(fetched.id, Some(id));
    assert_eq!(fetched.created_at, created.created_at);
    assert_eq!(fetched.email, "new@example.com");
}

#[test]
fn create_assigns_distinct_ids() {
    let mut repo = AccountRepository::new();
    let a = repo.create(create_test_account()).expect("first create");
    let b = repo.create(create_test_account()).expect("second create");
    assert!(a.id.is_some() && b.id.is_some());
    assert_ne!(a.id.unwrap(), b.id.unwrap());

    let all = repo.get_all().expect("get all");
    assert_eq!(all.len(), 2);
}
