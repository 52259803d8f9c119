//! The guard in front of the routes that need a signed-in user.

use crate::session::Session;
use crate::user_handler::{redirect, Reply};
use vstd::prelude::*;

verus! {

/// The method of a request, as far as the guard tells methods apart.
#[derive(Clone, Copy, Debug, PartialEq, Eq, Structural)]
pub enum Method {
    Get,
    Post,
    Other,
}

/// The routes that anyone may use: the sign-in and sign-up forms, to see
/// them and to send them.
pub open spec fn is_exempt(method: Method, path: Seq<char>) -> bool {
    &&& method == Method::Get || method == Method::Post
    &&& path == "/signin"@ || path == "/signup"@
}

/// Decides whether a request may pass: it may where somebody is signed in
/// or the route is exempt; else the client is sent to the sign-in form.
pub fn auth_middleware(session: &Session, method: Method, path: &str) -> (r: Option<Reply>)
    ensures
        session@.user is Some || is_exempt(method, path@) ==> r is None,
        !(session@.user is Some || is_exempt(method, path@)) ==> (r matches Some(reply) && reply@
            == redirect(None, "/signin"@)),
{
    match session.is_authenticated() {
        Some(_) => None,
        None => {
            let open_method = match method {
                Method::Get => true,
                Method::Post => true,
                Method::Other => false,
            };
            let path = path.to_owned();
            if open_method && (path == "/signin".to_owned() || path == "/signup".to_owned()) {
                None
            } else {
                Some(Reply::Redirect { error: None, location: "/signin".to_owned() })
            }
        },
    }
}

} // verus!
