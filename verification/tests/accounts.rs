use consult_portal::accounts::{
    get_user_info, hash_account_details, try_verify, user_info_unavailable, verify, Account,
    AccountRecord, AccountsTable, Role,
};
use consult_portal::login::{check_if_admin, login, login_checked, login_with_token};
use consult_portal::pages::{main_page_for, MainPage};
use consult_portal::register::{
    create_admin_account_if_missing, new_account_record, register, registration_status_code,
    validate_registration,
    RegistrationError,
};

fn plain_row(username: &str, password: &str, token: &str, role: &str) -> AccountRecord {
    AccountRecord {
        username: username.to_string(),
        password: password.to_string(),
        token: token.to_string(),
        role: role.to_string(),
        creation_date: "2024/01/02 03:04:05 PM".to_string(),
    }
}

#[test]
fn role_to_string_gives_stored_text() {
    assert_eq!(Role::Admin.to_string(), "Admin");
    assert_eq!(Role::Guest.to_string(), "Guest");
}

#[test]
fn role_from_text_reads_admin_and_defaults_to_guest() {
    assert_eq!(Role::from("Admin"), Role::Admin);
    assert_eq!(Role::from("Guest"), Role::Guest);
    assert_eq!(Role::from("admin"), Role::Guest);
    assert_eq!(Role::from(""), Role::Guest);
    assert_eq!(Role::from("Admin".to_string()), Role::Admin);
    assert_eq!(Role::from("Owner".to_string()), Role::Guest);
}

#[test]
fn role_text_round_trip() {
    assert_eq!(Role::from(Role::Admin.to_string()), Role::Admin);
    assert_eq!(Role::from(Role::Guest.to_string()), Role::Guest);
}

#[test]
fn hashing_then_verifying_accepts_only_the_password() {
    let mut account = Account { username: "salma".to_string(), password: "open sesame".to_string() };
    hash_account_details(&mut account);
    assert_eq!(account.username, "salma");
    assert_ne!(account.password, "open sesame");
    assert!(account.password.starts_with("$argon2id$v=19$m=19456,t=2,p=1$"));
    assert!(verify("open sesame", &account.password));
    assert!(!verify("open sesame!", &account.password));
    assert_eq!(try_verify("open sesame", &account.password), Some(true));
    assert_eq!(try_verify("wrong", &account.password), Some(false));
}

#[test]
fn try_verify_refuses_text_that_is_no_hash() {
    assert_eq!(try_verify("secret", "secret"), None);
    assert_eq!(try_verify("secret", ""), None);
}

#[test]
fn registration_field_lengths() {
    assert!(matches!(validate_registration("ab", "pass", "t"), Err(RegistrationError::InvalidUsername)));
    assert!(matches!(validate_registration("abcdefghijklmnopq", "pass", "t"), Err(RegistrationError::InvalidUsername)));
    assert!(validate_registration("abc", "pass", "t").is_ok());
    assert!(validate_registration("abcdefghijklmnop", "pass", "t").is_ok());
    // Lengths count characters, not bytes.
    assert!(validate_registration("سيد", "كلم", "t").is_ok());
    assert!(matches!(validate_registration("abc", "pass", ""), Err(RegistrationError::InvalidToken)));
    let long_token: String = std::iter::repeat('x').take(65).collect();
    assert!(matches!(validate_registration("abc", "pass", &long_token), Err(RegistrationError::InvalidToken)));
    let max_token: String = std::iter::repeat('x').take(64).collect();
    assert!(validate_registration("abc", "pass", &max_token).is_ok());
}

#[test]
fn password_length_is_checked_after_the_user_name() {
    assert!(matches!(validate_registration("abc", "", "t"), Err(RegistrationError::InvalidPassword)));
    assert!(matches!(validate_registration("abc", "pw", "t"), Err(RegistrationError::InvalidPassword)));
    assert!(matches!(validate_registration("abc", "abcdefghijklmnopq", "t"), Err(RegistrationError::InvalidPassword)));
    assert!(validate_registration("abc", "abcdefghijklmnop", "t").is_ok());
    // The user name is checked first, the token last.
    assert!(matches!(validate_registration("ab", "", ""), Err(RegistrationError::InvalidUsername)));
    assert!(matches!(validate_registration("abc", "", ""), Err(RegistrationError::InvalidPassword)));
}

#[test]
fn empty_password_is_refused_and_changes_nothing() {
    let mut table = AccountsTable::new();
    let outcome = register(&mut table, "alice", "", "tok", Role::Guest);
    assert!(matches!(outcome, Err(RegistrationError::InvalidPassword)));
    assert_eq!(registration_status_code(&outcome), 2);
    assert_eq!(table.rows.len(), 0);
}

#[test]
fn new_account_record_keeps_its_fields() {
    let account = Account { username: "salma".to_string(), password: "stored".to_string() };
    let record = new_account_record(account, "tok", Role::Admin, "2024/01/02 03:04:05 PM".to_string());
    assert_eq!(record.username, "salma");
    assert_eq!(record.password, "stored");
    assert_eq!(record.token, "tok");
    assert_eq!(record.role, "Admin");
    assert_eq!(record.creation_date, "2024/01/02 03:04:05 PM");
}

#[test]
fn registered_account_signs_in_with_its_password_and_token() {
    let mut table = AccountsTable::new();
    assert!(register(&mut table, "salma", "pass1", "token-1", Role::Guest).is_ok());
    assert_eq!(table.rows.len(), 1);
    assert_eq!(table.rows[0].username, "salma");
    assert_eq!(table.rows[0].token, "token-1");
    assert_eq!(table.rows[0].role, "Guest");
    assert!(table.rows[0].creation_date.ends_with("AM") || table.rows[0].creation_date.ends_with("PM"));
    assert_eq!(table.rows[0].creation_date.chars().count(), 22);
    assert!(login_with_token(&table, "token-1"));
    assert!(!check_if_admin(&table, "token-1"));
    assert!(login(&mut table, "salma", "pass1", "token-2"));
    assert_eq!(table.rows[0].token, "token-2");
    assert!(login_with_token(&table, "token-2"));
    assert!(!login_with_token(&table, "token-1"));
}

#[test]
fn registered_admin_is_admin() {
    let mut table = AccountsTable::new();
    assert!(register(&mut table, "boss", "pass1", "admin-token", Role::Admin).is_ok());
    assert_eq!(table.rows[0].role, "Admin");
    assert!(check_if_admin(&table, "admin-token"));
    assert!(login_with_token(&table, "admin-token"));
    let info = get_user_info(&table, "admin-token".to_string());
    assert!(info.user_exists);
    assert_eq!(info.username, "boss");
    assert_eq!(info.role, "Admin");
}

#[test]
fn second_registration_of_a_name_is_refused() {
    let mut table = AccountsTable::new();
    assert!(register(&mut table, "salma", "pass1", "t1", Role::Guest).is_ok());
    let outcome = register(&mut table, "salma", "other", "t2", Role::Admin);
    assert!(matches!(outcome, Err(RegistrationError::UsernameAlreadyExists)));
    assert_eq!(registration_status_code(&outcome), 4);
    assert_eq!(table.rows.len(), 1);
    assert!(!login_with_token(&table, "t2"));
}

#[test]
fn refused_registration_changes_nothing() {
    let mut table = AccountsTable::new();
    assert!(matches!(register(&mut table, "ab", "pass1", "t", Role::Guest), Err(RegistrationError::InvalidUsername)));
    assert!(matches!(register(&mut table, "abc", "pass1", "", Role::Guest), Err(RegistrationError::InvalidToken)));
    assert_eq!(table.rows.len(), 0);
}

#[test]
fn wrong_password_or_name_does_not_sign_in() {
    let mut table = AccountsTable::new();
    assert!(register(&mut table, "salma", "pass1", "t1", Role::Guest).is_ok());
    assert!(!login(&mut table, "salma", "PASS1", "t2"));
    assert!(!login(&mut table, "salmaa", "pass1", "t2"));
    assert_eq!(table.rows[0].token, "t1");
    assert!(!login_with_token(&table, "t2"));
}

#[test]
fn sign_in_sets_the_token_of_every_row_of_the_name() {
    let mut table = AccountsTable::new();
    assert!(register(&mut table, "salma", "pass1", "t1", Role::Guest).is_ok());
    assert!(register(&mut table, "omar", "pass1", "t2", Role::Guest).is_ok());
    let copy = AccountRecord {
        username: table.rows[0].username.clone(),
        password: table.rows[0].password.clone(),
        token: "t3".to_string(),
        role: "Guest".to_string(),
        creation_date: table.rows[0].creation_date.clone(),
    };
    table.rows.push(copy);
    let passwords: Vec<String> = table.rows.iter().map(|r| r.password.clone()).collect();
    assert!(login(&mut table, "salma", "pass1", "fresh"));
    assert_eq!(table.rows.len(), 3);
    assert_eq!(table.rows.iter().map(|r| r.password.clone()).collect::<Vec<_>>(), passwords);
    assert_eq!(table.rows[1].username, "omar");
    assert_eq!(table.rows[2].role, "Guest");
    assert_eq!(table.rows[0].token, "fresh");
    assert_eq!(table.rows[1].token, "t2");
    assert_eq!(table.rows[2].token, "fresh");
}

#[test]
fn checked_sign_in_refuses_unreadable_hashes() {
    let mut table = AccountsTable::from_rows(vec![plain_row("salma", "pass1", "t1", "Guest")]);
    assert_eq!(login_checked(&mut table, "salma", "pass1", "t2"), None);
    assert_eq!(table.rows[0].token, "t1");
    // Rows of other names are not read.
    assert_eq!(login_checked(&mut table, "omar", "pass1", "t2"), Some(false));
}

#[test]
fn checked_sign_in_grants_with_readable_hashes() {
    let mut table = AccountsTable::new();
    assert!(register(&mut table, "salma", "pass1", "t1", Role::Guest).is_ok());
    assert_eq!(login_checked(&mut table, "salma", "pass1", "t2"), Some(true));
    assert_eq!(table.rows[0].token, "t2");
    assert_eq!(login_checked(&mut table, "salma", "bad", "t3"), Some(false));
    assert_eq!(table.rows[0].token, "t2");
}

#[test]
fn user_info_reports_the_first_account_with_the_token() {
    let table = AccountsTable::from_rows(vec![
        plain_row("omar", "x", "other", "Guest"),
        plain_row("salma", "x", "shared", "Admin"),
        plain_row("huda", "x", "shared", "Guest"),
    ]);
    let info = get_user_info(&table, "shared".to_string());
    assert!(info.user_exists);
    assert_eq!(info.username, "salma");
    assert_eq!(info.role, "Admin");
    assert_eq!(info.creation_date, "2024/01/02 03:04:05 PM");
}

#[test]
fn user_info_for_unknown_token() {
    let table = AccountsTable::from_rows(vec![plain_row("omar", "x", "other", "Guest")]);
    let info = get_user_info(&table, "missing".to_string());
    assert!(!info.user_exists);
    assert_eq!(info.username, "Unknown");
    assert_eq!(info.role, "حرامي سيارات");
    assert_eq!(info.creation_date, "ظظظ");
}

#[test]
fn user_info_when_the_table_is_unreadable() {
    let info = user_info_unavailable();
    assert!(!info.user_exists);
    assert_eq!(info.username, "حدث خطأ بالخادم");
    assert_eq!(info.role, "حرامي سيارات");
    assert_eq!(info.creation_date, "ظظظ");
}

#[test]
fn admin_check_needs_token_and_role_on_one_row() {
    let table = AccountsTable::from_rows(vec![
        plain_row("omar", "x", "t1", "Guest"),
        plain_row("salma", "x", "t2", "Admin"),
    ]);
    assert!(check_if_admin(&table, "t2"));
    assert!(!check_if_admin(&table, "t1"));
    assert!(!check_if_admin(&table, "t3"));
    assert!(login_with_token(&table, "t1"));
    assert!(!login_with_token(&table, ""));
}

#[test]
fn status_codes_follow_the_error_order() {
    assert_eq!(registration_status_code(&Ok(())), 0);
    assert_eq!(registration_status_code(&Err(RegistrationError::InvalidUsername)), 1);
    assert_eq!(registration_status_code(&Err(RegistrationError::InvalidPassword)), 2);
    assert_eq!(registration_status_code(&Err(RegistrationError::InvalidToken)), 3);
    assert_eq!(registration_status_code(&Err(RegistrationError::UsernameAlreadyExists)), 4);
    assert_eq!(registration_status_code(&Err(RegistrationError::DatabaseError)), 5);
}

#[test]
fn admin_account_is_not_created_when_configuration_says_no() {
    let mut table = AccountsTable::new();
    assert!(create_admin_account_if_missing(&mut table).is_ok());
    assert_eq!(table.rows.len(), 0);
}

#[test]
fn main_page_depends_on_the_cookie_token() {
    let table = AccountsTable::from_rows(vec![
        plain_row("omar", "x", "member", "Guest"),
        plain_row("salma", "x", "boss", "Admin"),
    ]);
    assert_eq!(main_page_for(&table, None), MainPage::Unauthorized);
    assert_eq!(main_page_for(&table, Some("boss")), MainPage::AdminPage);
    assert_eq!(main_page_for(&table, Some("member")), MainPage::MemberPage);
    assert_eq!(main_page_for(&table, Some("nobody")), MainPage::Unauthorized);
}
