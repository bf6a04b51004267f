use crate::accounts::{role_from_text, role_text, token_logs_in, AccountRow, Role};
use crate::config::HASH_IMPORTANT_INFORMATION;
use crate::hashing::phc_string_parses;
use crate::login::{
    account_grants, login_succeeds, stored_hashes_readable, token_is_admin, with_token_for,
};
use crate::register::{
    registered, registration_check, row_registered, registration_verdict, status_code, username_taken,
    RegistrationError,
};
use vstd::prelude::*;

verus! {

/// No two rows of `rows` share a user name.
pub open spec fn usernames_distinct(rows: Seq<AccountRow>) -> bool {
    forall|i: int, j: int|
        0 <= i < rows.len() && 0 <= j < rows.len() && i != j ==> (#[trigger] rows[i]).username
            != (#[trigger] rows[j]).username
}

/// When hashing is on, every stored password of `rows` is a parsable PHC
/// string.
pub open spec fn all_hashes_readable(rows: Seq<AccountRow>) -> bool {
    HASH_IMPORTANT_INFORMATION ==> forall|i: int|
        0 <= i < rows.len() ==> phc_string_parses(#[trigger] rows[i].password)
}

/// An account that was just registered can sign in with its user name and
/// password, its token signs in, it is an administrator exactly when it was
/// registered as one (for its token), and its user name is taken.
pub proof fn lemma_registered_account_signs_in(
    old: Seq<AccountRow>,
    new: Seq<AccountRow>,
    username: Seq<char>,
    password: Seq<char>,
    token: Seq<char>,
    role: Role,
)
    requires
        registered(old, new, username, password, token, role),
    ensures
        login_succeeds(new, username, password),
        token_logs_in(new, token),
        role == Role::Admin ==> token_is_admin(new, token),
        username_taken(new, username),
{
    let k = new.len() - 1;
    assert(new[k] == new.last());
    assert(account_grants(new[k], username, password));
    if role == Role::Admin {
        assert(new[k].role == "Admin"@);
    }
}

/// After a successful registration of `username` (a name no row held),
/// signing in with the same password can be attempted, succeeds, and gives
/// the new row the sign-in token.
pub proof fn lemma_sign_in_after_registration(
    old: Seq<AccountRow>,
    new: Seq<AccountRow>,
    username: Seq<char>,
    password: Seq<char>,
    token: Seq<char>,
    role: Role,
    sign_in_token: Seq<char>,
)
    requires
        !username_taken(old, username),
        registered(old, new, username, password, token, role),
    ensures
        stored_hashes_readable(new, username),
        login_succeeds(new, username, password),
        with_token_for(new, username, sign_in_token).last().token == sign_in_token,
        token_logs_in(with_token_for(new, username, sign_in_token), sign_in_token),
{
    lemma_registered_account_signs_in(old, new, username, password, token, role);
    let n = old.len() as int;
    assert forall|i: int|
        0 <= i < new.len() && (#[trigger] new[i]).username == username implies (HASH_IMPORTANT_INFORMATION
        ==> phc_string_parses(new[i].password)) by {
        if i < n {
            assert(new[i] == new.take(n)[i]);
            assert(old[i] == new[i]);
        } else {
            assert(new[i] == new.last());
        }
    }
    lemma_sign_in_sets_only_tokens(new, username, password, sign_in_token);
    let after = with_token_for(new, username, sign_in_token);
    assert(after.last() == after[n]);
    assert(new[n] == new.last());
}

/// A table that still holds a row registered for `username` with `password`
/// (whatever else was added or changed since, as long as user names stay
/// distinct) lets that user sign in with the same password, and the sign-in
/// gives that row the new token.
pub proof fn lemma_sign_in_with_registered_row(
    rows: Seq<AccountRow>,
    k: int,
    username: Seq<char>,
    password: Seq<char>,
    token: Seq<char>,
    role: Role,
    sign_in_token: Seq<char>,
)
    requires
        0 <= k < rows.len(),
        row_registered(rows[k], username, password, token, role),
        usernames_distinct(rows),
    ensures
        stored_hashes_readable(rows, username),
        login_succeeds(rows, username, password),
        with_token_for(rows, username, sign_in_token)[k].token == sign_in_token,
        token_logs_in(with_token_for(rows, username, sign_in_token), sign_in_token),
{
    assert forall|i: int|
        0 <= i < rows.len() && (#[trigger] rows[i]).username == username implies (
        HASH_IMPORTANT_INFORMATION ==> phc_string_parses(rows[i].password)) by {
        if i != k {
            assert(rows[i].username != rows[k].username);
        }
    }
    assert(account_grants(rows[k], username, password));
    lemma_sign_in_sets_only_tokens(rows, username, password, sign_in_token);
}

/// A token registered for a guest, which no row held before, is no
/// administrator's token.
pub proof fn lemma_registered_guest_is_no_admin(
    old: Seq<AccountRow>,
    new: Seq<AccountRow>,
    username: Seq<char>,
    password: Seq<char>,
    token: Seq<char>,
)
    requires
        !token_logs_in(old, token),
        registered(old, new, username, password, token, Role::Guest),
    ensures
        !token_is_admin(new, token),
{
    reveal_strlit("Admin");
    reveal_strlit("Guest");
    let n = old.len() as int;
    assert forall|i: int| 0 <= i < new.len() && (#[trigger] new[i]).token == token implies new[i].role
        != "Admin"@ by {
        if i < n {
            assert(new[i] == new.take(n)[i]);
            assert(old[i] == new[i]);
        } else {
            assert(new[i] == new.last());
            assert("Guest"@[0] != "Admin"@[0]);
        }
    }
}

/// Registering the same user name a second time is refused with
/// `UsernameAlreadyExists` (once the field lengths pass), whatever password
/// and token come with it.
pub proof fn lemma_second_registration_refused(
    old: Seq<AccountRow>,
    new: Seq<AccountRow>,
    username: Seq<char>,
    password: Seq<char>,
    token: Seq<char>,
    role: Role,
    other_password: Seq<char>,
    other_token: Seq<char>,
)
    requires
        registered(old, new, username, password, token, role),
        registration_check(username, other_password, other_token) is None,
    ensures
        registration_verdict(new, username, other_password, other_token) == Err::<(), RegistrationError>(
            RegistrationError::UsernameAlreadyExists,
        ),
{
    lemma_registered_account_signs_in(old, new, username, password, token, role);
}

/// A registration only succeeds on a free user name, so registering keeps
/// user names distinct.
pub proof fn lemma_registration_keeps_usernames_distinct(
    old: Seq<AccountRow>,
    new: Seq<AccountRow>,
    username: Seq<char>,
    password: Seq<char>,
    token: Seq<char>,
    role: Role,
)
    requires
        usernames_distinct(old),
        !username_taken(old, username),
        registered(old, new, username, password, token, role),
    ensures
        usernames_distinct(new),
{
    assert forall|i: int, j: int|
        0 <= i < new.len() && 0 <= j < new.len() && i != j implies (#[trigger] new[i]).username
        != (#[trigger] new[j]).username by {
        let n = old.len() as int;
        if i < n {
            assert(new[i] == new.take(n)[i]);
        }
        if j < n {
            assert(new[j] == new.take(n)[j]);
        }
        if i == n {
            assert(new[i] == new.last());
            assert(old[j] == new[j]);
        }
        if j == n {
            assert(new[j] == new.last());
            assert(old[i] == new[i]);
        }
    }
}

/// Registering keeps every stored password readable as a hash.
pub proof fn lemma_registration_keeps_hashes_readable(
    old: Seq<AccountRow>,
    new: Seq<AccountRow>,
    username: Seq<char>,
    password: Seq<char>,
    token: Seq<char>,
    role: Role,
)
    requires
        all_hashes_readable(old),
        registered(old, new, username, password, token, role),
    ensures
        all_hashes_readable(new),
{
    if HASH_IMPORTANT_INFORMATION {
        assert forall|i: int| 0 <= i < new.len() implies phc_string_parses(
            #[trigger] new[i].password,
        ) by {
            let n = old.len() as int;
            if i < n {
                assert(new[i] == new.take(n)[i]);
            } else {
                assert(new[i] == new.last());
            }
        }
    }
}

/// When every stored password is readable, a sign-in can always be
/// attempted.
pub proof fn lemma_readable_hashes_allow_login(rows: Seq<AccountRow>, username: Seq<char>)
    requires
        all_hashes_readable(rows),
    ensures
        stored_hashes_readable(rows, username),
{
}

/// A successful sign-in changes only tokens: the rows keep their number,
/// order, user names, passwords, roles and creation dates, and after it the
/// new token signs in.
pub proof fn lemma_sign_in_sets_only_tokens(
    rows: Seq<AccountRow>,
    username: Seq<char>,
    password: Seq<char>,
    token: Seq<char>,
)
    requires
        login_succeeds(rows, username, password),
    ensures
        with_token_for(rows, username, token).len() == rows.len(),
        forall|i: int|
            0 <= i < rows.len() ==> {
                let r = #[trigger] with_token_for(rows, username, token)[i];
                &&& r.username == rows[i].username
                &&& r.password == rows[i].password
                &&& r.role == rows[i].role
                &&& r.creation_date == rows[i].creation_date
                &&& r.token == (if rows[i].username == username {
                    token
                } else {
                    rows[i].token
                })
            },
        token_logs_in(with_token_for(rows, username, token), token),
        login_succeeds(with_token_for(rows, username, token), username, password),
{
    let i = choose|i: int| 0 <= i < rows.len() && account_grants(#[trigger] rows[i], username, password);
    let after = with_token_for(rows, username, token);
    assert(after[i].token == token);
    assert(account_grants(after[i], username, password));
}

/// A sign-in keeps user names distinct and stored passwords readable as
/// hashes, since it changes only tokens.
pub proof fn lemma_sign_in_keeps_table_invariants(
    rows: Seq<AccountRow>,
    username: Seq<char>,
    token: Seq<char>,
)
    ensures
        usernames_distinct(rows) ==> usernames_distinct(with_token_for(rows, username, token)),
        all_hashes_readable(rows) ==> all_hashes_readable(with_token_for(rows, username, token)),
{
    let after = with_token_for(rows, username, token);
    assert forall|i: int| 0 <= i < rows.len() implies (#[trigger] after[i]).username
        == rows[i].username && after[i].password == rows[i].password by {}
}

/// A token that belongs to an administrator also signs in.
pub proof fn lemma_admin_token_signs_in(rows: Seq<AccountRow>, token: Seq<char>)
    requires
        token_is_admin(rows, token),
    ensures
        token_logs_in(rows, token),
{
}

/// Reading back the stored text of a role gives the role.
pub proof fn lemma_role_text_round_trip(role: Role)
    ensures
        role_from_text(role_text(role)) == role,
{
    reveal_strlit("Admin");
    reveal_strlit("Guest");
    assert("Guest"@[0] != "Admin"@[0]);
}

/// Different registration outcomes are reported with different codes: equal
/// codes mean both succeeded or both failed with the same error; only success
/// is reported with 0.
pub proof fn lemma_status_codes_distinct(
    a: Result<(), RegistrationError>,
    b: Result<(), RegistrationError>,
)
    ensures
        status_code(a) == status_code(b) ==> (a is Ok <==> b is Ok),
        status_code(a) == status_code(b) && a is Err ==> a->Err_0 == b->Err_0,
        status_code(a) == 0 <==> a is Ok,
{
    match a {
        Ok(()) => match b {
            Ok(()) => {},
            Err(_) => {},
        },
        Err(ea) => match b {
            Ok(()) => {},
            Err(eb) => {
                if status_code(a) == status_code(b) {
                    assert(ea == eb);
                }
            },
        },
    }
}

} // verus!
