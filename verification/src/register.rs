use crate::accounts::{
    hash_account_details, role_text, Account, AccountRecord, AccountRow, AccountsTable, Role,
};
use crate::config::{
    ADMIN_ACCOUNT_PASSWORD, ADMIN_ACCOUNT_USERNAME, CREATE_ADMIN_ACCOUNT_IF_IT_DOESNT_EXIST,
    HASH_IMPORTANT_INFORMATION,
};
use crate::hashing::{has_argon2_default_prefix, lemma_short_password_fits, phc_string_parses};
use crate::login::password_matches;
use crate::timestamps::{is_timestamp_text, local_timestamp};
use crate::account_laws::{lemma_registration_keeps_usernames_distinct, usernames_distinct};
use vstd::prelude::*;

verus! {

/// Why a registration was refused. The position of a variant, counted from
/// one, is the error code that clients receive.
#[derive(Clone, Copy, Debug, PartialEq, Eq, Structural)]
pub enum RegistrationError {
    InvalidUsername,
    InvalidPassword,
    InvalidToken,
    UsernameAlreadyExists,
    DatabaseError,
}

/// What the lengths of the fields say about a registration, counted in
/// characters and checked in this order: a user name of 3 to 16 characters, a
/// password of 3 to 16 characters, and a token of 1 to 64 characters.
pub open spec fn registration_check(username: Seq<char>, password: Seq<char>, token: Seq<char>) -> Option<RegistrationError> {
    if username.len() < 3 || username.len() > 16 {
        Some(RegistrationError::InvalidUsername)
    } else if password.len() < 3 || password.len() > 16 {
        Some(RegistrationError::InvalidPassword)
    } else if token.len() == 0 || token.len() > 64 {
        Some(RegistrationError::InvalidToken)
    } else {
        None
    }
}

/// Some row of `rows` belongs to `username`.
pub open spec fn username_taken(rows: Seq<AccountRow>, username: Seq<char>) -> bool {
    exists|i: int| 0 <= i < rows.len() && (#[trigger] rows[i]).username == username
}

/// The outcome of registering `username` with `password` and `token` on a
/// table holding `rows`.
pub open spec fn registration_verdict(
    rows: Seq<AccountRow>,
    username: Seq<char>,
    password: Seq<char>,
    token: Seq<char>,
) -> Result<(), RegistrationError> {
    match registration_check(username, password, token) {
        Some(e) => Err(e),
        None => if username_taken(rows, username) {
            Err(RegistrationError::UsernameAlreadyExists)
        } else {
            Ok(())
        },
    }
}

/// `new` is `old` with one row appended.
pub open spec fn appended(old: Seq<AccountRow>, new: Seq<AccountRow>) -> bool {
    new.len() == old.len() + 1 && new.take(old.len() as int) == old
}

/// `row` is the row that registering `username` with `password`, `token` and
/// `role` stores: the password is kept so that it matches (hashed when hashing
/// is on), and the creation date is a printed local time.
pub open spec fn row_registered(
    row: AccountRow,
    username: Seq<char>,
    password: Seq<char>,
    token: Seq<char>,
    role: Role,
) -> bool {
    &&& row.username == username
    &&& row.token == token
    &&& row.role == role_text(role)
    &&& password_matches(password, row.password)
    &&& HASH_IMPORTANT_INFORMATION ==> phc_string_parses(row.password)
    &&& HASH_IMPORTANT_INFORMATION ==> has_argon2_default_prefix(row.password)
    &&& is_timestamp_text(row.creation_date)
}

/// `new` is `old` after a successful registration.
pub open spec fn registered(
    old: Seq<AccountRow>,
    new: Seq<AccountRow>,
    username: Seq<char>,
    password: Seq<char>,
    token: Seq<char>,
    role: Role,
) -> bool {
    appended(old, new) && row_registered(new.last(), username, password, token, role)
}

/// The row that stores `account` (its password as it is to be stored) with
/// `token`, `role` and `creation_date`.
pub fn new_account_record(account: Account, token: &str, role: Role, creation_date: String) -> (record: AccountRecord)
    ensures
        record.username@ == account.username@,
        record.password@ == account.password@,
        record.token@ == token@,
        record.role@ == role_text(role),
        record.creation_date@ == creation_date@,
{
    AccountRecord {
        username: account.username,
        password: account.password,
        token: String::from_str(token),
        role: role.to_string(),
        creation_date,
    }
}

/// Checks the field lengths of a registration.
pub fn validate_registration(username: &str, password: &str, token: &str) -> (outcome: Result<(), RegistrationError>)
    ensures
        outcome == (match registration_check(username@, password@, token@) {
            Some(e) => Err(e),
            None => Ok(()),
        }),
        outcome is Ok <==> (3 <= username@.len() <= 16 && 3 <= password@.len() <= 16 && 1
            <= token@.len() <= 64),
        outcome == Err::<(), RegistrationError>(RegistrationError::InvalidUsername) <==> (
        username@.len() < 3 || username@.len() > 16),
{
    proof {
        lemma_registration_length_rules(username@, password@, token@);
    }
    let username_len = username.unicode_len();
    if username_len < 3 || username_len > 16 {
        return Err(RegistrationError::InvalidUsername);
    }
    let password_len = password.unicode_len();
    if password_len < 3 || password_len > 16 {
        return Err(RegistrationError::InvalidPassword);
    }
    let token_len = token.unicode_len();
    if token_len == 0 || token_len > 64 {
        return Err(RegistrationError::InvalidToken);
    }
    Ok(())
}

/// Whether some account belongs to `username`.
pub fn username_exists(accounts: &AccountsTable, username: &str) -> (exists: bool)
    ensures
        exists == username_taken(accounts@, username@),
{
    let wanted = String::from_str(username);
    let mut i: usize = 0;
    while i < accounts.rows.len()
        invariant
            0 <= i <= accounts.rows.len(),
            accounts@.len() == accounts.rows.len(),
            wanted@ == username@,
            forall|j: int| 0 <= j < i ==> (#[trigger] accounts@[j]).username != username@,
        decreases accounts.rows.len() - i,
    {
        if accounts.rows[i].username == wanted {
            assert(accounts@[i as int] == accounts.rows@[i as int]@);
            return true;
        }
        i += 1;
    }
    false
}

/// Stores a new account unless its user name is taken.
pub fn insert_account(accounts: &mut AccountsTable, record: AccountRecord) -> (outcome: Result<(), RegistrationError>)
    ensures
        username_taken(old(accounts)@, record.username@) ==> {
            &&& outcome == Err::<(), RegistrationError>(RegistrationError::UsernameAlreadyExists)
            &&& final(accounts)@ == old(accounts)@
        },
        !username_taken(old(accounts)@, record.username@) ==> {
            &&& outcome == Ok::<(), RegistrationError>(())
            &&& final(accounts)@ == old(accounts)@.push(record@)
        },
{
    if username_exists(accounts, record.username.as_str()) {
        return Err(RegistrationError::UsernameAlreadyExists);
    }
    accounts.rows.push(record);
    assert(accounts@ =~= old(accounts)@.push(record@));
    Ok(())
}

/// Registers an account: checks the field lengths, hashes the password when
/// hashing is on, refuses a taken user name, and stores the account with the
/// local time of creation.
pub fn register(
    accounts: &mut AccountsTable,
    username: &str,
    password: &str,
    token: &str,
    role: Role,
) -> (outcome: Result<(), RegistrationError>)
    ensures
        outcome == registration_verdict(old(accounts)@, username@, password@, token@),
        3 <= username@.len() <= 16 && 3 <= password@.len() <= 16 && 1 <= token@.len() <= 64
            && !username_taken(old(accounts)@, username@) ==> outcome is Ok,
        usernames_distinct(old(accounts)@) ==> usernames_distinct(final(accounts)@),
        outcome is Err ==> final(accounts)@ == old(accounts)@,
        outcome is Ok ==> registered(
            old(accounts)@,
            final(accounts)@,
            username@,
            password@,
            token@,
            role,
        ),
{
    proof {
        lemma_registration_length_rules(username@, password@, token@);
    }
    if let Err(e) = validate_registration(username, password, token) {
        return Err(e);
    }
    let mut account = Account { username: String::from_str(username), password: String::from_str(password) };
    proof {
        lemma_short_password_fits(password@);
    }
    if HASH_IMPORTANT_INFORMATION {
        hash_account_details(&mut account);
    }
    if username_exists(accounts, username) {
        return Err(RegistrationError::UsernameAlreadyExists);
    }
    let creation_date = local_timestamp();
    let record = new_account_record(account, token, role, creation_date);
    let ghost row = record@;
    let outcome = insert_account(accounts, record);
    proof {
        assert(final(accounts)@.last() == row);
        assert(final(accounts)@.take(old(accounts)@.len() as int) =~= old(accounts)@);
        if usernames_distinct(old(accounts)@) && outcome is Ok {
            lemma_registration_keeps_usernames_distinct(
                old(accounts)@,
                final(accounts)@,
                username@,
                password@,
                token@,
                role,
            );
        }
    }
    outcome
}

/// The length rules of a registration, counted in characters whatever their
/// width in bytes: it is refused with `InvalidUsername` exactly when the user
/// name has fewer than 3 or more than 16 characters, with `InvalidPassword`
/// exactly when the user name passes and the password has fewer than 3 or
/// more than 16 characters, with `InvalidToken` exactly when both pass and the
/// token is empty or longer than 64 characters, and passes otherwise.
pub proof fn lemma_registration_length_rules(username: Seq<char>, password: Seq<char>, token: Seq<char>)
    ensures
        registration_check(username, password, token) == Some(RegistrationError::InvalidUsername)
            <==> (username.len() < 3 || username.len() > 16),
        registration_check(username, password, token) == Some(RegistrationError::InvalidPassword)
            <==> (3 <= username.len() <= 16 && (password.len() < 3 || password.len() > 16)),
        registration_check(username, password, token) == Some(RegistrationError::InvalidToken)
            <==> (3 <= username.len() <= 16 && 3 <= password.len() <= 16 && (token.len() == 0
            || token.len() > 64)),
        registration_check(username, password, token) is None <==> (3 <= username.len() <= 16 && 3
            <= password.len() <= 16 && 1 <= token.len() <= 64),
{
}

/// A registration within the length rules on a free user name is accepted,
/// and one on a taken user name is refused with `UsernameAlreadyExists`.
pub proof fn lemma_registration_verdict_rules(
    rows: Seq<AccountRow>,
    username: Seq<char>,
    password: Seq<char>,
    token: Seq<char>,
)
    requires
        3 <= username.len() <= 16,
        3 <= password.len() <= 16,
        1 <= token.len() <= 64,
    ensures
        !username_taken(rows, username) ==> registration_verdict(rows, username, password, token)
            is Ok,
        username_taken(rows, username) ==> registration_verdict(rows, username, password, token)
            == Err::<(), RegistrationError>(RegistrationError::UsernameAlreadyExists),
{
}

/// The token given to the administrator account created at start-up.
pub const ADMIN_ACCOUNT_TOKEN: &'static str = "سيد البراغل";

/// At start-up, when the configuration asks for it, registers the configured
/// administrator account unless its user name is taken.
pub fn create_admin_account_if_missing(accounts: &mut AccountsTable) -> (outcome: Result<(), RegistrationError>)
    ensures
        !CREATE_ADMIN_ACCOUNT_IF_IT_DOESNT_EXIST || username_taken(
            old(accounts)@,
            ADMIN_ACCOUNT_USERNAME@,
        ) ==> outcome is Ok && final(accounts)@ == old(accounts)@,
        CREATE_ADMIN_ACCOUNT_IF_IT_DOESNT_EXIST && !username_taken(
            old(accounts)@,
            ADMIN_ACCOUNT_USERNAME@,
        ) ==> {
            &&& outcome == registration_verdict(
                old(accounts)@,
                ADMIN_ACCOUNT_USERNAME@,
                ADMIN_ACCOUNT_PASSWORD@,
                ADMIN_ACCOUNT_TOKEN@,
            )
            &&& outcome is Err ==> final(accounts)@ == old(accounts)@
            &&& outcome is Ok ==> registered(
                old(accounts)@,
                final(accounts)@,
                ADMIN_ACCOUNT_USERNAME@,
                ADMIN_ACCOUNT_PASSWORD@,
                ADMIN_ACCOUNT_TOKEN@,
                Role::Admin,
            )
        },
{
    if !CREATE_ADMIN_ACCOUNT_IF_IT_DOESNT_EXIST {
        return Ok(());
    }
    if username_exists(accounts, ADMIN_ACCOUNT_USERNAME) {
        return Ok(());
    }
    register(accounts, ADMIN_ACCOUNT_USERNAME, ADMIN_ACCOUNT_PASSWORD, ADMIN_ACCOUNT_TOKEN, Role::Admin)
}

/// The code that a registration outcome is reported with: 0 for success,
/// otherwise the position of the error variant counted from one.
pub open spec fn status_code(outcome: Result<(), RegistrationError>) -> u8 {
    match outcome {
        Ok(_) => 0u8,
        Err(RegistrationError::InvalidUsername) => 1u8,
        Err(RegistrationError::InvalidPassword) => 2u8,
        Err(RegistrationError::InvalidToken) => 3u8,
        Err(RegistrationError::UsernameAlreadyExists) => 4u8,
        Err(RegistrationError::DatabaseError) => 5u8,
    }
}

/// The code that a registration outcome is reported with.
pub fn registration_status_code(outcome: &Result<(), RegistrationError>) -> (code: u8)
    ensures
        code == status_code(*outcome),
{
    match outcome {
        Ok(_) => 0,
        Err(RegistrationError::InvalidUsername) => 1,
        Err(RegistrationError::InvalidPassword) => 2,
        Err(RegistrationError::InvalidToken) => 3,
        Err(RegistrationError::UsernameAlreadyExists) => 4,
        Err(RegistrationError::DatabaseError) => 5,
    }
}

} // verus!
