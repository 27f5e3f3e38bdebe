use blob_relay::config::Config;
use blob_relay::credentials::{Credentials, HeaderText};
use blob_relay::payload::append_chunk;
use blob_relay::relay::{put_succeeded, Action, Relay};
use blob_relay::reply::{Failure, Reply};
use blob_relay::route::route;
use blob_relay::target::blob_url;

fn text(s: &str) -> HeaderText {
    HeaderText::Text(s.to_string())
}

fn names(list: &[&str]) -> Vec<Option<String>> {
    list.iter().map(|n| Some(n.to_string())).collect()
}

fn start(files: &[&str]) -> Relay {
    let config = Config::new();
    match Relay::begin(
        &config,
        Some(1024),
        text("acct"),
        text("?sv=2021&sig=abc"),
        text("uploads"),
        names(files),
    ) {
        Ok(r) => r,
        Err(f) => panic!("request refused: {:?}", f),
    }
}

fn expect_put(relay: &Relay) -> (usize, String) {
    match relay.pending() {
        Action::Put { index, url } => (index, url),
        Action::Respond(r) => panic!("expected a PUT, got reply {} {}", r.status, r.body),
    }
}

fn expect_reply(relay: &Relay) -> Reply {
    match relay.pending() {
        Action::Respond(r) => r,
        Action::Put { index, .. } => panic!("expected a reply, got PUT of part {}", index),
    }
}

#[test]
fn blob_url_example() {
    assert_eq!(
        blob_url("acct", "uploads", "report.pdf", "?sv=2021&sig=abc"),
        "https://acct.blob.core.windows.net/uploads/report.pdf?sv=2021&sig=abc"
    );
}

#[test]
fn blob_url_inserts_no_separator_or_escaping() {
    assert_eq!(
        blob_url("a", "c", "dir/x y.txt", "sv"),
        "https://a.blob.core.windows.net/c/dir/x y.txtsv"
    );
    assert_eq!(blob_url("", "", "", ""), "https://.blob.core.windows.net//");
}

#[test]
fn route_accepts_post_upload_only() {
    assert_eq!(route("/upload", "POST"), Ok(()));
    assert_eq!(route("/upload", "GET"), Err(Failure::RouteNotFound));
    assert_eq!(route("/upload", "PUT"), Err(Failure::RouteNotFound));
    assert_eq!(route("/other", "POST"), Err(Failure::RouteNotFound));
    assert_eq!(route("/", "POST"), Err(Failure::RouteNotFound));
    assert_eq!(route("/upload/extra", "POST"), Err(Failure::RouteNotFound));
    let r = Reply::for_failure(Failure::RouteNotFound);
    assert_eq!((r.status, r.body.as_str()), (404, "Not Found"));
}

#[test]
fn missing_headers_take_literal_defaults() {
    let c = Credentials::resolve(HeaderText::Absent, HeaderText::Absent, HeaderText::Absent)
        .unwrap();
    assert_eq!((c.account.as_str(), c.sas_token.as_str(), c.container.as_str()), ("url", "sv", "container"));

    let c = Credentials::resolve(text("acct"), HeaderText::Absent, text("box")).unwrap();
    assert_eq!((c.account.as_str(), c.sas_token.as_str(), c.container.as_str()), ("acct", "sv", "box"));

    let config = Config::new();
    let relay = Relay::begin(
        &config,
        None,
        HeaderText::Absent,
        text("?tok"),
        HeaderText::Absent,
        names(&["a.txt"]),
    )
    .ok()
    .unwrap();
    let (index, url) = expect_put(&relay);
    assert_eq!(index, 0);
    assert_eq!(url, "https://url.blob.core.windows.net/container/a.txt?tok");
}

#[test]
fn non_text_header_is_malformed() {
    let r = Credentials::resolve(text("acct"), HeaderText::NotText, text("box"));
    assert_eq!(r.err(), Some(Failure::MalformedRequest));
    let config = Config::new();
    let r = Relay::begin(&config, None, HeaderText::NotText, HeaderText::Absent, HeaderText::Absent, names(&["a"]));
    assert_eq!(r.err(), Some(Failure::MalformedRequest));
    let reply = Reply::for_failure(Failure::MalformedRequest);
    assert_eq!((reply.status, reply.body.as_str()), (500, "Internal Server Error"));
}

#[test]
fn config_defaults() {
    let c = Config::new();
    assert_eq!(c.max_body_bytes, 5_000_000_000);
    assert_eq!(c.port, 8080);
}

#[test]
fn oversized_body_is_refused_before_any_put() {
    let config = Config::new();
    assert_eq!(config.admit_body(Some(5_000_000_001)), Err(Failure::PayloadTooLarge));
    assert_eq!(config.admit_body(Some(5_000_000_000)), Ok(()));
    assert_eq!(config.admit_body(None), Ok(()));
    let r = Relay::begin(&config, Some(5_000_000_001), text("a"), text("b"), text("c"), names(&["x"]));
    assert_eq!(r.err(), Some(Failure::PayloadTooLarge));
    let reply = Reply::for_failure(Failure::PayloadTooLarge);
    assert_eq!((reply.status, reply.body.as_str()), (400, "Payload too large"));
    // The size check comes before header and filename checks.
    let r = Relay::begin(&config, Some(u64::MAX), HeaderText::NotText, text("b"), text("c"), vec![None]);
    assert_eq!(r.err(), Some(Failure::PayloadTooLarge));
}

#[test]
fn empty_or_missing_filename_fails_whole_request() {
    let config = Config::new();
    let files = vec![Some("a.txt".to_string()), Some(String::new()), Some("c.txt".to_string())];
    let r = Relay::begin(&config, None, text("a"), text("b"), text("c"), files);
    assert_eq!(r.err(), Some(Failure::MalformedRequest));
    let files = vec![Some("a.txt".to_string()), None];
    let r = Relay::begin(&config, None, text("a"), text("b"), text("c"), files);
    assert_eq!(r.err(), Some(Failure::MalformedRequest));
}

#[test]
fn all_parts_succeed_in_order() {
    let mut relay = start(&["one.bin", "two.bin", "three.bin"]);
    assert_eq!(relay.part_count(), 3);
    for (i, name) in ["one.bin", "two.bin", "three.bin"].iter().enumerate() {
        let (index, url) = expect_put(&relay);
        assert_eq!(index, i);
        assert_eq!(url, format!("https://acct.blob.core.windows.net/uploads/{}?sv=2021&sig=abc", name));
        relay.record(true);
    }
    let reply = expect_reply(&relay);
    assert_eq!((reply.status, reply.body.as_str()), (200, "success"));
}

#[test]
fn request_without_parts_succeeds() {
    let relay = start(&[]);
    let reply = expect_reply(&relay);
    assert_eq!((reply.status, reply.body.as_str()), (200, "success"));
}

#[test]
fn failure_at_second_part_stops_the_rest() {
    let mut relay = start(&["a", "b", "c", "d"]);
    let (index, _) = expect_put(&relay);
    assert_eq!(index, 0);
    relay.record(true);
    let (index, url) = expect_put(&relay);
    assert_eq!(index, 1);
    assert_eq!(url, "https://acct.blob.core.windows.net/uploads/b?sv=2021&sig=abc");
    relay.record(false);
    let reply = expect_reply(&relay);
    assert_eq!((reply.status, reply.body.as_str()), (500, "Internal Server Error"));
    relay.record(true);
    let reply = expect_reply(&relay);
    assert_eq!(reply.status, 500);
}

#[test]
fn failure_at_first_part() {
    let mut relay = start(&["only"]);
    assert_eq!(expect_put(&relay).0, 0);
    relay.record(false);
    assert_eq!(expect_reply(&relay).status, 500);
}

#[test]
fn chunks_are_appended_in_order() {
    let mut buf: Vec<u8> = Vec::new();
    assert!(append_chunk(&mut buf, b"hello "));
    assert!(append_chunk(&mut buf, b""));
    assert!(append_chunk(&mut buf, b"world"));
    assert_eq!(buf, b"hello world".to_vec());
}

#[test]
fn outcome_replies() {
    let err = Reply::for_failure(Failure::TransportFailure);
    assert_eq!((err.status, err.body.as_str()), (500, "Internal Server Error"));
    let s = Reply::success();
    assert_eq!((s.status, s.body.as_str()), (200, "success"));
}

#[test]
fn only_completed_2xx_puts_count() {
    assert!(put_succeeded(Some(201)));
    assert!(put_succeeded(Some(200)));
    assert!(!put_succeeded(Some(403)));
    assert!(!put_succeeded(Some(500)));
    assert!(!put_succeeded(Some(199)));
    assert!(!put_succeeded(None));
}
