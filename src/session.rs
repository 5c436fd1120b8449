//! The forms a web layer decodes, and what ending a session does.
use vstd::prelude::*;
use vstd::string::*;

use crate::model::User;

verus! {

/// A login form.
#[derive(Clone, Debug)]
pub struct Login {
    pub username: String,
    pub password: String,
}

/// A registration form.
#[derive(Clone, Debug)]
pub struct Signup {
    pub username: String,
    pub email: String,
    pub password: String,
}

/// What ending a session asks of the web layer: the private cookies to
/// remove, and where to send the browser.
#[derive(Clone, Debug)]
pub struct Logout {
    pub cleared_cookies: Vec<String>,
    pub redirect: String,
}

/// Ends a session: the cookie that names the user and the one that holds its
/// token are removed, and the browser goes to the home page.
pub fn logout() -> (r: Logout)
    ensures
        r.cleared_cookies@.len() == 2,
        r.cleared_cookies@[0]@ == "user_id"@,
        r.cleared_cookies@[1]@ == "jwt"@,
        r.redirect@ == "/"@,
{
    let mut cleared_cookies: Vec<String> = Vec::new();
    cleared_cookies.push(String::from_str("user_id"));
    cleared_cookies.push(String::from_str("jwt"));
    Logout { cleared_cookies, redirect: String::from_str("/") }
}


/// The path of a user's profile page.
pub open spec fn profile_path(username: Seq<char>) -> Seq<char> {
    "/user/"@ + username
}

/// Builds the path of a user's profile page.
fn profile_of(username: &str) -> (r: String)
    ensures
        r@ == profile_path(username@),
{
    String::from_str("/user/").concat(username)
}

/// What a successful login asks of the web layer: the private cookie that
/// names the user, and where to send the browser.
#[derive(Clone, Debug)]
pub struct LoginSession {
    pub user_cookie: String,
    pub redirect: String,
}

/// Decides a login from the outcome of checking its password: a match opens a
/// session for the user and goes to their profile; anything else, a wrong
/// password, an unknown user or a failure, is refused with one message.
pub fn login_outcome(form: &Login, checked: &Result<bool, crate::error::DatastoreError>) -> (r:
    Result<LoginSession, String>)
    ensures
        checked matches Ok(true) <==> r is Ok,
        r matches Ok(s) ==> s.user_cookie@ == form.username@ && s.redirect@ == profile_path(
            form.username@,
        ),
        r matches Err(m) ==> m@ == "Invalid user or password"@,
{
    match checked {
        Ok(true) => Ok(
            LoginSession {
                user_cookie: form.username.clone(),
                redirect: profile_of(form.username.as_str()),
            },
        ),
        _ => Err(String::from_str("Invalid user or password")),
    }
}

/// Where `/user` sends the browser: the signed-in user's profile, or the
/// login page.
pub fn user_self(current: &Option<User>) -> (r: String)
    ensures
        match current {
            Some(u) => r@ == profile_path(u.username@),
            None => r@ == "/login"@,
        },
{
    match current {
        Some(u) => profile_of(u.username.as_str()),
        None => String::from_str("/login"),
    }
}

} // verus!
