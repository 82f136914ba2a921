use dungeon::game::{Game, Storage};
use dungeon::server::{Reply, Server, PROTO_ID};
use dungeon::types::{Method, Request};

const PASSWORD_HASH: &str = "5e884898da28047151d0e56f8dc6292773603d0d6aabbdd62a11ef721d1542d8";

#[test]
fn hash_is_hex_of_sha256() {
    assert_eq!(Game::to_hash("password".to_string()), PASSWORD_HASH);
    assert_eq!(
        Game::to_hash("пароль".to_string()),
        "2dbc574daca52689a24fb60e835f8c19a36400830df7350859dd32d1abaaec5d"
    );
}

#[test]
fn register_then_login() {
    let mut g = Game::new("0.0.0.0:7777".to_string(), Vec::new());
    let (reply, write) = g.add_player(("bob".to_string(), "password".to_string()), "1.1.1.1:1".to_string());
    assert_eq!(reply, Ok("Ви успішно зареєструвались!".to_string()));
    let write = write.expect("a new player is stored");
    assert_eq!(write.key, "player_bob");
    assert_eq!(write.player.login, "bob");
    assert_eq!(write.player.password_hash, PASSWORD_HASH);
    assert_eq!(write.player.data, "1.1.1.1:1");

    let p = g.get_player("bob".to_string()).expect("registered");
    assert_eq!(p.password_hash, PASSWORD_HASH);
    assert_eq!(p.hp, 100);

    let (reply, write) = g.add_player(("bob".to_string(), "password".to_string()), "2.2.2.2:2".to_string());
    assert_eq!(reply, Ok("Ви успішно авторизувались як: bob (2.2.2.2:2)".to_string()));
    assert!(write.is_none());
    assert_eq!(g.get_player("bob".to_string()).unwrap().data, "1.1.1.1:1");
}

#[test]
fn wrong_password_is_refused() {
    let mut g = Game::new("a".to_string(), Vec::new());
    let _ = g.add_player(("bob".to_string(), "password".to_string()), "x".to_string());
    let (reply, write) = g.add_player(("bob".to_string(), "other".to_string()), "x".to_string());
    assert_eq!(reply, Err("Ви ввели невірний пароль!".to_string()));
    assert!(write.is_none());
    assert_eq!(g.get_player("bob".to_string()).unwrap().password_hash, PASSWORD_HASH);
}

#[test]
fn unknown_player_is_absent() {
    let g = Game::new("a".to_string(), Vec::new());
    assert!(g.get_player("nobody".to_string()).is_none());
}

#[test]
fn loaded_players_are_known() {
    let p = dungeon::base::Player::new("eve".to_string(), PASSWORD_HASH.to_string(), String::new());
    let mut g = Game::new("a".to_string(), vec![p]);
    let (reply, _) = g.add_player(("eve".to_string(), "password".to_string()), "h:1".to_string());
    assert_eq!(reply, Ok("Ви успішно авторизувались як: eve (h:1)".to_string()));
}

#[test]
fn storage_filters_by_prefix_in_order() {
    let entries = vec![
        ("player_a".to_string(), "A".to_string()),
        ("item_1".to_string(), "I".to_string()),
        ("player_b".to_string(), "B".to_string()),
        ("play".to_string(), "P".to_string()),
    ];
    assert_eq!(Storage.get_all_with_prefix(&entries, "player"), vec!["A".to_string(), "B".to_string()]);
    assert_eq!(Storage.get_all_with_prefix(&entries, "").len(), 4);
    assert!(Storage.get_all_with_prefix(&Vec::new(), "player").is_empty());
}

#[test]
fn game_serves_on_its_address() {
    let g = Game::new("127.0.0.1:9".to_string(), Vec::new());
    let _s: Server = g.get_server();
}

fn answer(reply: Reply) -> (bool, String) {
    match reply {
        Reply::Answer(r) => (r.successful, r.message),
        Reply::Stats(_) => panic!("expected a ready answer"),
    }
}

#[test]
fn unreadable_request_gets_format_error() {
    let mut g = Game::new("0.0.0.0:7777".to_string(), Vec::new());
    let (r, w) = Server::handle_request(&mut g, None, "127.0.0.1:5000");
    assert_eq!(answer(r), (false, "Request format error(127.0.0.1:5000)".to_string()));
    assert!(w.is_none());
    assert!(g.get_player(String::new()).is_none());
}

#[test]
fn server_answers_requests() {
    let mut g = Game::new("a".to_string(), Vec::new());

    let (r, w) = Server::handle_request(&mut g, None, "9.9.9.9:1");
    assert_eq!(answer(r), (false, "Request format error(9.9.9.9:1)".to_string()));
    assert!(w.is_none());

    let (r, _) = Server::handle_request(&mut g, Some(Request::new(Method::Ping, PROTO_ID + 1, None)), "x");
    assert_eq!(answer(r), (false, "Помилка! Неправильний ID протоколу!".to_string()));

    let (r, _) = Server::handle_request(&mut g, Some(Request::new(Method::Ping, PROTO_ID, None)), "x");
    assert_eq!(answer(r), (true, "Ping".to_string()));

    let (r, _) = Server::handle_request(&mut g, Some(Request::new(Method::GetStats, PROTO_ID, Some("bob".to_string()))), "x");
    assert_eq!(answer(r), (false, "Гравця не знайдено!".to_string()));

    let connect = Method::Connect(("bob".to_string(), "password".to_string()));
    let (r, w) = Server::handle_request(&mut g, Some(Request::new(connect, PROTO_ID, None)), "5.5.5.5:5");
    assert_eq!(answer(r), (true, "Ви успішно зареєструвались!".to_string()));
    assert_eq!(w.unwrap().key, "player_bob");

    let bad = Method::Connect(("bob".to_string(), "nope".to_string()));
    let (r, w) = Server::handle_request(&mut g, Some(Request::new(bad, PROTO_ID, None)), "5.5.5.5:5");
    assert_eq!(answer(r), (false, "Ви ввели невірний пароль!".to_string()));
    assert!(w.is_none());

    let (r, _) = Server::handle_request(&mut g, Some(Request::new(Method::GetStats, PROTO_ID, Some("bob".to_string()))), "x");
    match r {
        Reply::Stats(p) => {
            assert_eq!(p.login, "bob");
            assert_eq!(p.data, "5.5.5.5:5");
        }
        Reply::Answer(_) => panic!("expected statistics"),
    }
}
