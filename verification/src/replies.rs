use vstd::prelude::*;

verus! {

/// The page the service sends back for a request.
#[derive(Debug, Clone, PartialEq, Eq)]
pub enum Reply {
    /// A redirect to the given path.
    Redirect(String),
    /// The sign-in page, with an error message or none.
    LoginPage(Option<String>),
    /// The sign-up page, with an error message or none.
    RegisterPage(Option<String>),
    /// A rendered HTML page.
    Html(String),
    /// An internal server error with a plain-text message.
    ServerError(String),
}

pub const HOME_PATH: &'static str = "/";

pub const LOGIN_PATH: &'static str = "/login";

pub const RENDER_ERROR_MESSAGE: &'static str = "Erro ao renderizar template";

/// `r` redirects to `path`.
pub open spec fn redirects_to(r: Reply, path: Seq<char>) -> bool {
    r matches Reply::Redirect(p) && p@ == path
}

/// A redirect to the home page.
pub fn redirect_home() -> (r: Reply)
    ensures
        redirects_to(r, HOME_PATH@),
{
    Reply::Redirect(String::from_str(HOME_PATH))
}

/// A redirect to the sign-in page.
pub fn redirect_login() -> (r: Reply)
    ensures
        redirects_to(r, LOGIN_PATH@),
{
    Reply::Redirect(String::from_str(LOGIN_PATH))
}

/// The reply for a rendered page: the page itself, or an internal error
/// with a fixed message when rendering failed.
pub fn page_reply(rendered: Option<String>) -> (r: Reply)
    ensures
        match rendered {
            Some(html) => r == Reply::Html(html),
            None => r matches Reply::ServerError(m) && m@ == RENDER_ERROR_MESSAGE@,
        },
{
    match rendered {
        Some(html) => Reply::Html(html),
        None => Reply::ServerError(String::from_str(RENDER_ERROR_MESSAGE)),
    }
}

} // verus!
