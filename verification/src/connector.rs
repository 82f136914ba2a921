//! The client's side of a connection: which requests may go out, and what
//! the answers do to the connection's state. Sending and receiving happen
//! outside this library: a request that `request` lets through is sent, and
//! the answer is handed back to the method that reads it.

use vstd::prelude::*;
use vstd::string::*;

use crate::text::{trim, trim_text};
use crate::types::{Method, Request, Response};

verus! {

/// A client's connection to a server.
#[derive(Debug)]
pub struct Connector {
    /// IP:Port
    pub server: String,
    pub username: String,
    pub proto_id: u64,
    password: String,
    is_conn: bool,
}

/// Requests that may go out before the client is connected.
pub open spec fn allowed_unconnected(method: Method) -> bool {
    method is Connect || method is Ping
}

/// The answer given, without contacting the server, to a request that needs
/// a connection.
pub open spec fn not_connected_reply() -> Seq<char> {
    "Ви не підключені до серверу!"@
}

/// The answer given when the server could not be reached.
pub open spec fn unreachable_reply(error: Seq<char>) -> Seq<char> {
    "Помилка при спробі зв'язку з сервером: "@ + error
}

/// The client's own answers: a request that needs a connection is refused
/// with its own message, and an unreachable server is reported with the
/// error that came up; only Connect and Ping may go out unconnected.
pub proof fn lemma_client_reply_texts(error: Seq<char>, method: Method)
    ensures
        not_connected_reply() == "Ви не підключені до серверу!"@,
        unreachable_reply(error) == "Помилка при спробі зв'язку з сервером: "@ + error,
        allowed_unconnected(method) <==> !(method is GetStats),
{
}

impl Connector {
    /// The server's address.
    pub closed spec fn server_address(&self) -> Seq<char> {
        self.server@
    }

    /// The login the client uses.
    pub closed spec fn login(&self) -> Seq<char> {
        self.username@
    }

    /// The protocol version the client speaks.
    pub closed spec fn protocol(&self) -> u64 {
        self.proto_id
    }

    /// The password the client logs in with.
    pub closed spec fn password(&self) -> Seq<char> {
        self.password@
    }

    /// Whether the server has accepted the client's login.
    pub closed spec fn is_connected(&self) -> bool {
        self.is_conn
    }

    /// A connector for `server` (IP:PORT, surrounding whitespace dropped)
    /// speaking protocol `proto_id`, with no credentials and not connected.
    /// It is to be checked by a ping (`ping_request`, `accept_ping`).
    pub fn new(server: String, proto_id: u64) -> (con: Self)
        ensures
            con.server_address() == trim(server@),
            con.login() == Seq::<char>::empty(),
            con.password() == Seq::<char>::empty(),
            con.protocol() == proto_id,
            !con.is_connected(),
    {
        Connector {
            server: trim_text(server.as_str()),
            username: String::new(),
            proto_id,
            password: String::new(),
            is_conn: false,
        }
    }

    /// The ping that checks a new connector's server.
    pub fn ping_request(&self) -> (r: Request)
        ensures
            r.body is Ping,
            r.proto_id == self.protocol(),
            r.user@ == Seq::<char>::empty(),
    {
        Request::new(Method::Ping, self.proto_id, None)
    }

    /// Keeps the connector if the server answered the ping successfully;
    /// otherwise gives the server's message.
    pub fn accept_ping(self, ping: Response) -> (r: Result<Self, String>)
        ensures
            ping.successful ==> (r matches Ok(c) && c == self),
            !ping.successful ==> (r matches Err(m) && m@ == ping.message@),
    {
        if ping.successful {
            Ok(self)
        } else {
            Err(ping.message)
        }
    }

    /// Sets the credentials, each without surrounding whitespace.
    pub fn auth(&mut self, username: String, password: String)
        ensures
            final(self).login() == trim(username@),
            final(self).password() == trim(password@),
            final(self).server_address() == old(self).server_address(),
            final(self).protocol() == old(self).protocol(),
            final(self).is_connected() == old(self).is_connected(),
    {
        self.username = trim_text(username.as_str());
        self.password = trim_text(password.as_str());
    }

    /// Whether `method` may go out before the client is connected.
    pub fn check_connection(&self, method: &Method) -> (b: bool)
        ensures
            b == allowed_unconnected(*method),
    {
        match method {
            Method::Connect(_) => true,
            Method::Ping => true,
            _ => false,
        }
    }

    /// Lets a request through (`Ok`) when it may go out, that is when it
    /// needs no connection or the client is connected; otherwise gives the
    /// answer to it (`Err`) without contacting the server.
    pub fn request(&self, request: Request) -> (r: Result<Request, Response>)
        ensures
            (allowed_unconnected(request.body) || self.is_connected()) ==> r == Ok::<
                Request,
                Response,
            >(request),
            !(allowed_unconnected(request.body) || self.is_connected()) ==> (r matches Err(resp)
                && !resp.successful && resp.message@ == not_connected_reply()),
    {
        if self.check_connection(&request.body) || self.is_conn {
            Ok(request)
        } else {
            Err(
                Response {
                    successful: false,
                    message: String::from_str("Ви не підключені до серверу!"),
                },
            )
        }
    }

    /// The answer to a request whose server could not be reached.
    pub fn unreachable(error: &str) -> (r: Response)
        ensures
            !r.successful,
            r.message@ == unreachable_reply(error@),
    {
        let mut message = String::from_str("Помилка при спробі зв'язку з сервером: ");
        message.append(error);
        Response { successful: false, message }
    }

    /// The login request, with the client's credentials.
    pub fn connect_request(&self) -> (r: Request)
        ensures
            r.body matches Method::Connect(d) && d.0@ == self.login() && d.1@
                == self.password(),
            r.proto_id == self.protocol(),
            r.user@ == Seq::<char>::empty(),
    {
        Request::new(
            Method::Connect((self.username.clone(), self.password.clone())),
            self.proto_id,
            None,
        )
    }

    /// Reads the answer to the login: a successful one connects the client.
    /// Gives the answer back.
    pub fn connect(&mut self, resp: Response) -> (r: Response)
        ensures
            final(self).is_connected() == (old(self).is_connected() || resp.successful),
            final(self).server_address() == old(self).server_address(),
            final(self).login() == old(self).login(),
            final(self).password() == old(self).password(),
            final(self).protocol() == old(self).protocol(),
            r == resp,
    {
        if resp.successful {
            self.is_conn = true;
        }
        resp
    }

    /// The request for the client's own statistics.
    pub fn stats_request(&self) -> (r: Request)
        ensures
            r.body is GetStats,
            r.proto_id == self.protocol(),
            r.user@ == self.login(),
    {
        Request::new(Method::GetStats, self.proto_id, Some(self.username.clone()))
    }

    /// Reads the answer to a statistics request: on success, the player's
    /// JSON text; otherwise the server's message.
    pub fn get_stats(resp: Response) -> (r: Result<String, String>)
        ensures
            resp.successful ==> (r matches Ok(m) && m@ == resp.message@),
            !resp.successful ==> (r matches Err(m) && m@ == resp.message@),
    {
        if resp.successful {
            Ok(resp.message)
        } else {
            Err(resp.message)
        }
    }
}

} // verus!
