//! The server's answers to requests.

use vstd::prelude::*;
use vstd::string::*;

use crate::base::{same_player, Player};
use crate::game::{add_player_effect, login_result, position_of, Game, StorageWrite};
use crate::digest::hashable;
use crate::types::{Method, Request, Response};

verus! {

/// The protocol version this server speaks.
pub const PROTO_ID: u64 = 1;

/// Where the server listens.
#[derive(Debug)]
pub struct Server {
    host: String,
}

/// What the server sends back: a ready response, or the statistics of a
/// player, which go out as a successful response whose message is the
/// player's JSON.
#[derive(Debug)]
pub enum Reply {
    Answer(Response),
    Stats(Player),
}

/// `r` is a ready response with the given success flag and message.
pub open spec fn answers(r: Reply, successful: bool, message: Seq<char>) -> bool {
    r matches Reply::Answer(resp) && resp.successful == successful && resp.message@ == message
}

/// The message of a result: its text, success or failure alike.
pub open spec fn result_text(res: Result<Seq<char>, Seq<char>>) -> Seq<char> {
    match res {
        Ok(m) => m,
        Err(m) => m,
    }
}

/// The answer to a request that could not be read.
pub open spec fn format_error_reply(addr: Seq<char>) -> Seq<char> {
    "Request format error("@ + addr + ")"@
}

/// The answer to a request in another protocol version.
pub open spec fn wrong_protocol_reply() -> Seq<char> {
    "Помилка! Неправильний ID протоколу!"@
}

/// The answer to a request for an unknown player's statistics.
pub open spec fn unknown_player_reply() -> Seq<char> {
    "Гравця не знайдено!"@
}

/// The server's fixed answers: an unreadable request is named with the
/// sender's address, a wrong protocol and an unknown player each have their
/// own message, and a reply is a ready answer with exactly the given success
/// flag and message.
pub proof fn lemma_server_reply_texts(addr: Seq<char>, r: Reply, successful: bool, message: Seq<char>)
    ensures
        format_error_reply(addr) == "Request format error("@ + addr + ")"@,
        wrong_protocol_reply() == "Помилка! Неправильний ID протоколу!"@,
        unknown_player_reply() == "Гравця не знайдено!"@,
        answers(r, successful, message) <==> (r matches Reply::Answer(resp) && resp.successful
            == successful && resp.message@ == message),
        result_text(Ok::<Seq<char>, Seq<char>>(message)) == message,
        result_text(Err::<Seq<char>, Seq<char>>(message)) == message,
{
}

/// A request the server can answer without panicking: a password to hash
/// must be short enough.
pub open spec fn request_hashable(request: Option<Request>) -> bool {
    match request {
        Some(req) => match req.body {
            Method::Connect(d) => hashable(d.1@),
            _ => true,
        },
        None => true,
    }
}

impl Server {
    /// The address the server listens on.
    pub closed spec fn host(&self) -> Seq<char> {
        self.host@
    }

    pub fn new(host: String) -> (s: Self)
        ensures
            s.host() == host@,
    {
        Server { host }
    }

    /// The address the server listens on.
    pub fn host_address(&self) -> (r: &String)
        ensures
            r@ == self.host(),
    {
        &self.host
    }

    /// Answers a request from `addr`; `request` is `None` when the text that
    /// came in was not a request. Returns the reply and the record to store,
    /// if the request registered a player.
    pub fn handle_request(game: &mut Game, request: Option<Request>, addr: &str) -> (r: (
        Reply,
        Option<StorageWrite>,
    ))
        requires
            request_hashable(request),
        ensures
            final(game).address() == old(game).address(),
            match request {
                None => {
                    &&& final(game).roster() == old(game).roster()
                    &&& answers(r.0, false, format_error_reply(addr@))
                    &&& r.1 is None
                },
                Some(req) => if req.proto_id != PROTO_ID {
                    &&& final(game).roster() == old(game).roster()
                    &&& answers(r.0, false, wrong_protocol_reply())
                    &&& r.1 is None
                } else {
                    match req.body {
                        Method::Ping => {
                            &&& final(game).roster() == old(game).roster()
                            &&& answers(r.0, true, "Ping"@)
                            &&& r.1 is None
                        },
                        Method::Connect(d) => {
                            let res = login_result(old(game).roster(), d.0@, d.1@, addr@);
                            &&& add_player_effect(
                                old(game).roster(),
                                final(game).roster(),
                                d.0@,
                                d.1@,
                                addr@,
                                r.1,
                            )
                            &&& answers(r.0, res is Ok, result_text(res))
                        },
                        Method::GetStats => {
                            &&& final(game).roster() == old(game).roster()
                            &&& r.1 is None
                            &&& match position_of(old(game).roster(), req.user@) {
                                Some(i) => r.0 matches Reply::Stats(p) && same_player(
                                    p,
                                    old(game).roster()[i as int],
                                ),
                                None => answers(r.0, false, unknown_player_reply()),
                            }
                        },
                    }
                },
            },
    {
        match request {
            None => {
                let mut m = String::from_str("Request format error(");
                m.append(addr);
                m.append(")");
                (Reply::Answer(Response { successful: false, message: m }), None)
            },
            Some(req) => {
                if req.proto_id != PROTO_ID {
                    return (
                        Reply::Answer(
                            Response {
                                successful: false,
                                message: String::from_str("Помилка! Неправильний ID протоколу!"),
                            },
                        ),
                        None,
                    );
                }
                match req.body {
                    Method::Ping => (
                        Reply::Answer(
                            Response { successful: true, message: String::from_str("Ping") },
                        ),
                        None,
                    ),
                    Method::Connect(data) => {
                        let (res, write) = game.add_player(data, String::from_str(addr));
                        let successful = res.is_ok();
                        let message = match res {
                            Ok(m) => m,
                            Err(m) => m,
                        };
                        (Reply::Answer(Response { successful, message }), write)
                    },
                    Method::GetStats => {
                        match game.get_player(req.user) {
                            Some(p) => (Reply::Stats(p.duplicate()), None),
                            None => (
                                Reply::Answer(
                                    Response {
                                        successful: false,
                                        message: String::from_str("Гравця не знайдено!"),
                                    },
                                ),
                                None,
                            ),
                        }
                    },
                }
            },
        }
    }
}

} // verus!
