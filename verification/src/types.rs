//! Messages exchanged between the client and the server.

use vstd::prelude::*;

verus! {

/// What a client asks the server to do.
#[derive(Debug)]
pub enum Method {
    /// Log in, or register, with a login and a password.
    Connect((String, String)),
    /// Get player statistics.
    GetStats,
    /// Just ping.
    Ping,
}

/// A request as it travels to the server.
#[derive(Debug)]
pub struct Request {
    /// The player on whose behalf the request is made (empty if none).
    pub user: String,
    /// The protocol version the client speaks.
    pub proto_id: u64,
    pub body: Method,
}

/// The server's answer to a request.
#[derive(Debug)]
pub struct Response {
    pub successful: bool,
    pub message: String,
}

/// The user field of a request built for `user`: the name, or the empty text.
pub open spec fn user_field(user: Option<String>) -> Seq<char> {
    match user {
        Some(u) => u@,
        None => Seq::empty(),
    }
}

/// A request made for a user carries that user's name; one made for no
/// user carries the empty text.
pub proof fn lemma_user_field(u: String)
    ensures
        user_field(Some(u)) == u@,
        user_field(None) == Seq::<char>::empty(),
{
}

impl Request {
    /// Builds a request; a missing user becomes the empty text.
    pub fn new(body: Method, proto_id: u64, user: Option<String>) -> (r: Self)
        ensures
            r.body == body,
            r.proto_id == proto_id,
            r.user@ == user_field(user),
    {
        let user = match user {
            Some(u) => u,
            None => String::new(),
        };
        Request { user, proto_id, body }
    }
}

} // verus!
