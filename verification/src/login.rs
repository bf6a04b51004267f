use crate::accounts::{token_logs_in, AccountRecord, AccountRow, AccountsTable};
use crate::config::HASH_IMPORTANT_INFORMATION;
use crate::hashing::{argon2_accepts, phc_parses, phc_string_parses};
use rayon::iter::{IntoParallelRefIterator, ParallelIterator};
use vstd::prelude::*;

verus! {

/// Some row of `rows` holds `token` and the role `"Admin"`.
pub open spec fn token_is_admin(rows: Seq<AccountRow>, token: Seq<char>) -> bool {
    exists|i: int| 0 <= i < rows.len() && (#[trigger] rows[i]).token == token && rows[i].role == "Admin"@
}

/// Whether `password` matches the stored password text `stored`: through
/// Argon2 when hashing is on, as equal text when it is off.
pub open spec fn password_matches(password: Seq<char>, stored: Seq<char>) -> bool {
    if HASH_IMPORTANT_INFORMATION {
        argon2_accepts(password, stored)
    } else {
        password == stored
    }
}

/// The row belongs to `username` and its stored password matches `password`.
pub open spec fn account_grants(row: AccountRow, username: Seq<char>, password: Seq<char>) -> bool {
    row.username == username && password_matches(password, row.stored_password())
}

impl AccountRow {
    /// The stored password text of the row.
    pub open spec fn stored_password(self) -> Seq<char> {
        self.password
    }
}

/// Some row of `rows` grants access to `username` with `password`.
pub open spec fn login_succeeds(rows: Seq<AccountRow>, username: Seq<char>, password: Seq<char>) -> bool {
    exists|i: int| 0 <= i < rows.len() && account_grants(#[trigger] rows[i], username, password)
}

/// When hashing is on, every row of `username` stores a parsable PHC string,
/// so that checking a password against it cannot fail.
pub open spec fn stored_hashes_readable(rows: Seq<AccountRow>, username: Seq<char>) -> bool {
    HASH_IMPORTANT_INFORMATION ==> forall|i: int|
        0 <= i < rows.len() && (#[trigger] rows[i]).username == username ==> phc_string_parses(
            rows[i].password,
        )
}

/// `rows` with the token of every row of `username` set to `token`.
pub open spec fn with_token_for(rows: Seq<AccountRow>, username: Seq<char>, token: Seq<char>) -> Seq<AccountRow> {
    rows.map_values(
        |r: AccountRow|
            if r.username == username {
                AccountRow { token: token, ..r }
            } else {
                r
            },
    )
}

/// Whether the account holding `token` is an administrator.
pub fn check_if_admin(accounts: &AccountsTable, token: &str) -> (is_admin: bool)
    ensures
        is_admin == token_is_admin(accounts@, token@),
{
    let wanted = String::from_str(token);
    let admin = String::from_str("Admin");
    let mut i: usize = 0;
    while i < accounts.rows.len()
        invariant
            0 <= i <= accounts.rows.len(),
            accounts@.len() == accounts.rows.len(),
            admin@ == "Admin"@,
            wanted@ == token@,
            forall|j: int|
                0 <= j < i ==> !((#[trigger] accounts@[j]).token == token@ && accounts@[j].role
                    == "Admin"@),
        decreases accounts.rows.len() - i,
    {
        if accounts.rows[i].token == wanted && accounts.rows[i].role == admin {
            assert(accounts@[i as int] == accounts.rows@[i as int]@);
            assert(accounts@[i as int].token == token@);
            return true;
        }
        i += 1;
    }
    false
}

/// Whether some account holds `token`.
pub fn login_with_token(accounts: &AccountsTable, token: &str) -> (granted: bool)
    ensures
        granted == token_logs_in(accounts@, token@),
{
    let wanted = String::from_str(token);
    let mut i: usize = 0;
    while i < accounts.rows.len()
        invariant
            0 <= i <= accounts.rows.len(),
            accounts@.len() == accounts.rows.len(),
            wanted@ == token@,
            forall|j: int| 0 <= j < i ==> (#[trigger] accounts@[j]).token != token@,
        decreases accounts.rows.len() - i,
    {
        if accounts.rows[i].token == wanted {
            assert(accounts@[i as int] == accounts.rows@[i as int]@);
            assert(accounts@[i as int].token == token@);
            return true;
        }
        i += 1;
    }
    false
}

/// Whether `account` belongs to `username` and its stored password matches
/// `password`.
pub(crate) fn account_grants_access(account: &AccountRecord, username: &str, password: &str) -> (granted: bool)
    requires
        HASH_IMPORTANT_INFORMATION && account.username@ == username@ ==> phc_string_parses(
            account.password@,
        ),
    ensures
        granted == account_grants(account@, username@, password@),
{
    if String::from_str(username) != account.username {
        return false;
    }
    if HASH_IMPORTANT_INFORMATION {
        crate::accounts::verify(password, account.password.as_str())
    } else {
        String::from_str(password) == account.password
    }
}

/// Runs `account_grants_access` over the rows with rayon's
/// `par_iter().any(..)`.
///
/// Trusted: rayon documents `any` as true exactly when the closure returns
/// true for some item; the closure only calls the verified
/// `account_grants_access`, whose precondition the `requires` here supplies
/// for every row.
#[verifier::external_body]
fn any_account_grants(accounts: &AccountsTable, username: &str, password: &str) -> (granted: bool)
    requires
        stored_hashes_readable(accounts@, username@),
    ensures
        granted == login_succeeds(accounts@, username@, password@),
{
    accounts.rows.par_iter().any(|account| account_grants_access(account, username, password))
}

/// Sets the token of every row of `username` to `token`.
fn set_token_for(accounts: &mut AccountsTable, username: &str, token: &str)
    ensures
        final(accounts)@ == with_token_for(old(accounts)@, username@, token@),
{
    let name = String::from_str(username);
    let new_token = String::from_str(token);
    let n = accounts.rows.len();
    let mut i: usize = 0;
    while i < n
        invariant
            0 <= i <= n,
            n == accounts.rows.len(),
            name@ == username@,
            new_token@ == token@,
            n == old(accounts).rows.len(),
            accounts@.len() == n,
            old(accounts)@.len() == n,
            forall|j: int|
                0 <= j < i ==> #[trigger] accounts@[j] == with_token_for(
                    old(accounts)@,
                    username@,
                    token@,
                )[j],
            forall|j: int| i <= j < n ==> #[trigger] accounts@[j] == old(accounts)@[j],
        decreases n - i,
    {
        proof {
            assert(accounts@[i as int] == accounts.rows@[i as int]@);
        }
        let ghost before = accounts@;
        if accounts.rows[i].username == name {
            let row = &accounts.rows[i];
            let updated = AccountRecord {
                username: row.username.clone(),
                password: row.password.clone(),
                token: new_token.clone(),
                role: row.role.clone(),
                creation_date: row.creation_date.clone(),
            };
            accounts.rows.set(i, updated);
            proof {
                assert forall|j: int| 0 <= j < n implies #[trigger] accounts@[j] == (if j
                    == i as int {
                    with_token_for(old(accounts)@, username@, token@)[j]
                } else {
                    before[j]
                }) by {
                    assert(accounts@[j] == accounts.rows@[j]@);
                }
            }
        }
        i += 1;
    }
    assert(accounts@ =~= with_token_for(old(accounts)@, username@, token@));
}

/// Signs in with user name and password: when some account of `username`
/// accepts `password`, every account of `username` gets `token`.
pub fn login(accounts: &mut AccountsTable, username: &str, password: &str, token: &str) -> (granted: bool)
    requires
        stored_hashes_readable(old(accounts)@, username@),
    ensures
        granted == login_succeeds(old(accounts)@, username@, password@),
        granted ==> final(accounts)@ == with_token_for(old(accounts)@, username@, token@),
        !granted ==> final(accounts)@ == old(accounts)@,
{
    let granted = any_account_grants(accounts, username, password);
    if granted {
        set_token_for(accounts, username, token);
    }
    granted
}

/// Signs in as `login` does, or gives `None` and changes nothing when some
/// stored password of `username` cannot be read as a hash.
pub fn login_checked(accounts: &mut AccountsTable, username: &str, password: &str, token: &str) -> (outcome: Option<bool>)
    ensures
        outcome is None <==> !stored_hashes_readable(old(accounts)@, username@),
        outcome is None ==> final(accounts)@ == old(accounts)@,
        outcome matches Some(granted) ==> {
            &&& granted == login_succeeds(old(accounts)@, username@, password@)
            &&& granted ==> final(accounts)@ == with_token_for(old(accounts)@, username@, token@)
            &&& !granted ==> final(accounts)@ == old(accounts)@
        },
{
    if HASH_IMPORTANT_INFORMATION {
        let name = String::from_str(username);
        let mut i: usize = 0;
        while i < accounts.rows.len()
            invariant
                0 <= i <= accounts.rows.len(),
                accounts@.len() == accounts.rows.len(),
                name@ == username@,
                forall|j: int|
                    0 <= j < i && (#[trigger] accounts@[j]).username == username@
                        ==> phc_string_parses(accounts@[j].password),
            decreases accounts.rows.len() - i,
        {
            if accounts.rows[i].username == name && !phc_parses(accounts.rows[i].password.as_str()) {
                assert(accounts@[i as int].username == username@);
                return None;
            }
            i += 1;
        }
    }
    Some(login(accounts, username, password, token))
}

} // verus!
