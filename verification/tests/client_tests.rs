use dungeon::connector::Connector;
use dungeon::params::ServerParams;
use dungeon::types::{Method, Request, Response};

fn ok(message: &str) -> Response {
    Response { successful: true, message: message.to_string() }
}

fn fail(message: &str) -> Response {
    Response { successful: false, message: message.to_string() }
}

#[test]
fn new_connector_trims_server() {
    let c = Connector::new("  127.0.0.1:7777\n".to_string(), 1);
    assert_eq!(c.server, "127.0.0.1:7777");
    assert_eq!(c.username, "");
    assert_eq!(c.proto_id, 1);
}

#[test]
fn ping_decides_whether_to_keep_connector() {
    let c = Connector::new("h:1".to_string(), 1);
    let ping = c.ping_request();
    assert!(matches!(ping.body, Method::Ping));
    assert_eq!(ping.user, "");
    assert!(c.accept_ping(ok("Ping")).is_ok());
    let c = Connector::new("h:1".to_string(), 1);
    assert_eq!(c.accept_ping(fail("down")).unwrap_err(), "down");
}

#[test]
fn stats_need_a_connection() {
    let mut c = Connector::new("h:1".to_string(), 1);
    c.auth("  bob ".to_string(), " pw\n".to_string());
    assert_eq!(c.username, "bob");

    let refused = c.request(c.stats_request()).unwrap_err();
    assert!(!refused.successful);
    assert_eq!(refused.message, "Ви не підключені до серверу!");
    assert!(c.request(c.ping_request()).is_ok());

    let connect = c.connect_request();
    match &connect.body {
        Method::Connect((u, p)) => {
            assert_eq!(u, "bob");
            assert_eq!(p, "pw");
        }
        _ => panic!("expected a login"),
    }
    let connect = c.request(connect).expect("login may go out");
    assert_eq!(connect.proto_id, 1);

    let r = c.connect(fail("Ви ввели невірний пароль!"));
    assert_eq!(r.message, "Ви ввели невірний пароль!");
    assert!(c.request(c.stats_request()).is_err());

    c.connect(ok("Ви успішно зареєструвались!"));
    let stats = c.request(c.stats_request()).expect("connected");
    assert_eq!(stats.user, "bob");
    assert!(matches!(stats.body, Method::GetStats));
}

#[test]
fn stats_answer_is_read() {
    assert_eq!(Connector::get_stats(ok("{}")), Ok("{}".to_string()));
    assert_eq!(Connector::get_stats(fail("Гравця не знайдено!")), Err("Гравця не знайдено!".to_string()));
}

#[test]
fn unreachable_server_answer() {
    let r = Connector::unreachable("connection refused");
    assert!(!r.successful);
    assert_eq!(r.message, "Помилка при спробі зв'язку з сервером: connection refused");
}

#[test]
fn request_user_defaults_to_empty() {
    let r = Request::new(Method::GetStats, 4, None);
    assert_eq!(r.user, "");
    assert_eq!(r.proto_id, 4);
    let r = Request::new(Method::Ping, 1, Some("x".to_string()));
    assert_eq!(r.user, "x");
}

#[test]
fn server_params_address() {
    let p = ServerParams::default();
    assert_eq!(p.host, "0.0.0.0");
    assert_eq!(p.port, "7777");
    assert_eq!(p.address(), "0.0.0.0:7777");
    let q = ServerParams { host: "10.0.0.1".to_string(), port: "80".to_string() };
    assert_eq!(q.address(), "10.0.0.1:80");
}
