use crate::config::HASH_IMPORTANT_INFORMATION;
use crate::hashing::{
    argon2_accepts, argon2_hash_fresh_salt, argon2_verify, has_argon2_default_prefix,
    password_fits_argon2, phc_parses, phc_string_parses,
};
use vstd::prelude::*;

verus! {

/// User name and password of an account, as the sign-in check reads them.
pub struct Account {
    pub username: String,
    pub password: String,
}

/// The two roles an account can hold.
#[derive(Clone, Copy, Debug, PartialEq, Eq, Structural)]
pub enum Role {
    Admin,
    Guest,
}

/// The text under which a role is stored.
pub open spec fn role_text(role: Role) -> Seq<char> {
    match role {
        Role::Admin => "Admin"@,
        Role::Guest => "Guest"@,
    }
}

/// The role that a stored text stands for: anything but `"Admin"` is a guest.
pub open spec fn role_from_text(text: Seq<char>) -> Role {
    if text == "Admin"@ {
        Role::Admin
    } else {
        Role::Guest
    }
}

impl Role {
    /// The text under which this role is stored.
    pub fn to_string(&self) -> (text: String)
        ensures
            text@ == role_text(*self),
    {
        match self {
            Role::Admin => String::from_str("Admin"),
            Role::Guest => String::from_str("Guest"),
        }
    }
}

/// Reads a role from its stored text.
fn role_of_text(value: &str) -> (role: Role)
    ensures
        role == role_from_text(value@),
{
    if String::from_str(value) == String::from_str("Admin") {
        Role::Admin
    } else {
        Role::Guest
    }
}

impl From<String> for Role {
    fn from(value: String) -> (role: Role) {
        role_of_text(value.as_str())
    }
}

impl vstd::std_specs::convert::FromSpecImpl<String> for Role {
    open spec fn obeys_from_spec() -> bool {
        true
    }

    open spec fn from_spec(v: String) -> Role {
        role_from_text(v@)
    }
}

impl<'a> From<&'a str> for Role {
    fn from(value: &'a str) -> (role: Role) {
        role_of_text(value)
    }
}

impl<'a> vstd::std_specs::convert::FromSpecImpl<&'a str> for Role {
    open spec fn obeys_from_spec() -> bool {
        true
    }

    open spec fn from_spec(v: &'a str) -> Role {
        role_from_text(v@)
    }
}

/// Replaces the account's password by its Argon2 hash under a fresh salt.
pub fn hash_account_details(account: &mut Account)
    requires
        password_fits_argon2(old(account).password@),
    ensures
        final(account).username == old(account).username,
        phc_string_parses(final(account).password@),
        argon2_accepts(old(account).password@, final(account).password@),
        has_argon2_default_prefix(final(account).password@),
{
    account.password = argon2_hash_fresh_salt(account.password.as_str());
}

/// Checks a password against a stored Argon2 hash.
pub fn verify(unhashed_string: &str, hashed_string: &str) -> (accepted: bool)
    requires
        phc_string_parses(hashed_string@),
    ensures
        accepted == argon2_accepts(unhashed_string@, hashed_string@),
{
    argon2_verify(unhashed_string, hashed_string)
}

/// Checks a password against a stored hash, or gives `None` when the stored
/// text is no PHC string (where `verify` may not be called).
pub fn try_verify(unhashed_string: &str, hashed_string: &str) -> (outcome: Option<bool>)
    ensures
        outcome is None <==> !phc_string_parses(hashed_string@),
        outcome matches Some(accepted) ==> accepted == argon2_accepts(
            unhashed_string@,
            hashed_string@,
        ),
{
    if phc_parses(hashed_string) {
        Some(verify(unhashed_string, hashed_string))
    } else {
        None
    }
}


/// One row of the accounts table.
pub struct AccountRecord {
    pub username: String,
    pub password: String,
    pub token: String,
    pub role: String,
    pub creation_date: String,
}

/// What an accounts row holds, as text.
pub ghost struct AccountRow {
    pub username: Seq<char>,
    pub password: Seq<char>,
    pub token: Seq<char>,
    pub role: Seq<char>,
    pub creation_date: Seq<char>,
}

impl View for AccountRecord {
    type V = AccountRow;

    open spec fn view(&self) -> AccountRow {
        AccountRow {
            username: self.username@,
            password: self.password@,
            token: self.token@,
            role: self.role@,
            creation_date: self.creation_date@,
        }
    }
}

/// The accounts table, its rows in insertion order.
pub struct AccountsTable {
    pub rows: Vec<AccountRecord>,
}

impl View for AccountsTable {
    type V = Seq<AccountRow>;

    open spec fn view(&self) -> Seq<AccountRow> {
        self.rows@.map_values(|r: AccountRecord| r@)
    }
}

impl AccountsTable {
    /// A table without rows.
    pub fn new() -> (table: AccountsTable)
        ensures
            table@ == Seq::<AccountRow>::empty(),
    {
        AccountsTable { rows: Vec::new() }
    }

    /// The table holding `rows`, in that order.
    pub fn from_rows(rows: Vec<AccountRecord>) -> (table: AccountsTable)
        ensures
            table.rows@ == rows@,
    {
        AccountsTable { rows }
    }
}

/// What an account lookup by token tells about the account.
pub struct UserInfo {
    pub user_exists: bool,
    pub username: String,
    pub role: String,
    pub creation_date: String,
}

/// User name reported when no account holds the token.
pub const UNKNOWN_USERNAME: &'static str = "Unknown";

/// User name reported when the accounts table could not be read.
pub const SERVER_ERROR_USERNAME: &'static str = "حدث خطأ بالخادم";

/// Role reported when no account was found.
pub const NO_ACCOUNT_ROLE: &'static str = "حرامي سيارات";

/// Creation date reported when no account was found.
pub const NO_ACCOUNT_DATE: &'static str = "ظظظ";

/// Some row of `rows` holds `token`.
pub open spec fn token_logs_in(rows: Seq<AccountRow>, token: Seq<char>) -> bool {
    exists|i: int| 0 <= i < rows.len() && (#[trigger] rows[i]).token == token
}

/// Row `k` is the first row of `rows` that holds `token`.
pub open spec fn first_with_token(rows: Seq<AccountRow>, token: Seq<char>, k: int) -> bool {
    &&& 0 <= k < rows.len()
    &&& rows[k].token == token
    &&& forall|j: int| 0 <= j < k ==> (#[trigger] rows[j]).token != token
}

/// Looks up the first account that holds `token`.
pub fn get_user_info(accounts: &AccountsTable, token: String) -> (info: UserInfo)
    ensures
        info.user_exists == token_logs_in(accounts@, token@),
        info.user_exists ==> exists|k: int|
            {
                &&& #[trigger] first_with_token(accounts@, token@, k)
                &&& info.username@ == accounts@[k].username
                &&& info.role@ == accounts@[k].role
                &&& info.creation_date@ == accounts@[k].creation_date
            },
        !info.user_exists ==> {
            &&& info.username@ == UNKNOWN_USERNAME@
            &&& info.role@ == NO_ACCOUNT_ROLE@
            &&& info.creation_date@ == NO_ACCOUNT_DATE@
        },
{
    let mut i: usize = 0;
    while i < accounts.rows.len()
        invariant
            0 <= i <= accounts.rows.len(),
            accounts@.len() == accounts.rows.len(),
            forall|j: int| 0 <= j < i ==> (#[trigger] accounts@[j]).token != token@,
        decreases accounts.rows.len() - i,
    {
        let row = &accounts.rows[i];
        if row.token == token {
            assert(first_with_token(accounts@, token@, i as int));
            return UserInfo {
                user_exists: true,
                username: row.username.clone(),
                role: row.role.clone(),
                creation_date: row.creation_date.clone(),
            };
        }
        i += 1;
    }
    UserInfo {
        user_exists: false,
        username: String::from_str(UNKNOWN_USERNAME),
        role: String::from_str(NO_ACCOUNT_ROLE),
        creation_date: String::from_str(NO_ACCOUNT_DATE),
    }
}

/// What the lookup reports when the accounts table cannot be read.
pub fn user_info_unavailable() -> (info: UserInfo)
    ensures
        !info.user_exists,
        info.username@ == SERVER_ERROR_USERNAME@,
        info.role@ == NO_ACCOUNT_ROLE@,
        info.creation_date@ == NO_ACCOUNT_DATE@,
{
    UserInfo {
        user_exists: false,
        username: String::from_str(SERVER_ERROR_USERNAME),
        role: String::from_str(NO_ACCOUNT_ROLE),
        creation_date: String::from_str(NO_ACCOUNT_DATE),
    }
}

} // verus!
