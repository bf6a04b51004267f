use crate::accounts::{token_logs_in, AccountsTable};
use crate::login::{check_if_admin, login_with_token, token_is_admin};
use vstd::prelude::*;

verus! {

/// The page that a request for the main page is answered with.
#[derive(Clone, Copy, Debug, PartialEq, Eq, Structural)]
pub enum MainPage {
    /// The administrators' page.
    AdminPage,
    /// The page for signed-in members.
    MemberPage,
    /// The page that sends the visitor to sign in.
    Unauthorized,
}

/// Decides the main page for a request carrying `auth_token` (the value of
/// its `auth_token` cookie, when it has one): administrators get their page,
/// other signed-in accounts the members' page, everyone else is sent to sign
/// in.
pub fn main_page_for(accounts: &AccountsTable, auth_token: Option<&str>) -> (page: MainPage)
    ensures
        page == (match auth_token {
            None => MainPage::Unauthorized,
            Some(token) => if token_is_admin(accounts@, token@) {
                MainPage::AdminPage
            } else if token_logs_in(accounts@, token@) {
                MainPage::MemberPage
            } else {
                MainPage::Unauthorized
            },
        }),
{
    match auth_token {
        None => MainPage::Unauthorized,
        Some(token) => {
            let signed_in = login_with_token(accounts, token);
            if check_if_admin(accounts, token) {
                MainPage::AdminPage
            } else if signed_in {
                MainPage::MemberPage
            } else {
                MainPage::Unauthorized
            }
        },
    }
}

} // verus!
