use saba_core::error::Error;
use saba_core::http::{request_text, Action, Event, Fetch, HttpResponse, Phase};

fn network(message: &str) -> Action {
    Action::Finish(Err(Error::Network(message.to_string())))
}

fn connected(host: &str, path: &str) -> Fetch {
    let mut fetch = Fetch::new(host.to_string(), 8080, path.to_string());
    assert_eq!(fetch.step(Event::Resolved(2)), Action::Connect(0, 8080));
    let request = "GET /index.html HTTP/1.1\nHost: example.com\nAccept: text/html\nConnection: close\n\n";
    assert_eq!(fetch.step(Event::Connected), Action::Send(request.to_string()));
    assert_eq!(fetch.step(Event::Sent), Action::Receive);
    fetch
}

#[test]
fn request_has_the_literal_wire_format() {
    assert_eq!(
        request_text("example.com", "a/b?c"),
        "GET /a/b?c HTTP/1.1\nHost: example.com\nAccept: text/html\nConnection: close\n\n"
    );
    assert_eq!(
        request_text("h", ""),
        "GET / HTTP/1.1\nHost: h\nAccept: text/html\nConnection: close\n\n"
    );
}

#[test]
fn response_is_the_concatenation_of_all_reads() {
    let mut fetch = connected("example.com", "index.html");
    assert_eq!(fetch.phase(), Phase::Receiving);
    assert_eq!(fetch.step(Event::Received(b"HTTP/1.1 200 OK\n".to_vec())), Action::Receive);
    assert_eq!(fetch.step(Event::Received(b"\n<html>".to_vec())), Action::Receive);
    assert_eq!(fetch.step(Event::Received(vec![0xc3])), Action::Receive);
    assert_eq!(fetch.step(Event::Received(vec![0xa9])), Action::Receive);
    let expected = HttpResponse::new("HTTP/1.1 200 OK\n\n<html>\u{e9}".to_string());
    assert_eq!(fetch.step(Event::Received(Vec::new())), Action::Finish(Ok(expected)));
    assert_eq!(fetch.phase(), Phase::Done);
}

#[test]
fn immediate_close_gives_an_empty_response() {
    let mut fetch = connected("example.com", "index.html");
    let action = fetch.step(Event::Received(Vec::new()));
    assert_eq!(action, Action::Finish(Ok(HttpResponse::new(String::new()))));
}

#[test]
fn invalid_utf8_is_a_network_error() {
    let mut fetch = connected("example.com", "index.html");
    assert_eq!(fetch.step(Event::Received(vec![b'o', b'k', 0xff])), Action::Receive);
    assert_eq!(fetch.step(Event::Received(Vec::new())), network("Invalid received response"));
}

#[test]
fn no_address_is_a_network_error() {
    let mut fetch = Fetch::new("example.com".to_string(), 80, String::new());
    assert_eq!(fetch.host(), "example.com");
    assert_eq!(fetch.step(Event::Resolved(0)), network("Failed to find IP addresses"));
    assert_eq!(fetch.phase(), Phase::Done);
}

#[test]
fn resolution_error_is_a_network_error() {
    let mut fetch = Fetch::new("nowhere".to_string(), 80, String::new());
    let action = fetch.step(Event::ResolveFailed("NotFound".to_string()));
    assert_eq!(action, network("Failed to find IP addresses: NotFound"));
}

#[test]
fn connect_error_is_a_network_error() {
    let mut fetch = Fetch::new("example.com".to_string(), 80, String::new());
    assert_eq!(fetch.step(Event::Resolved(1)), Action::Connect(0, 80));
    assert_eq!(fetch.step(Event::ConnectFailed), network("Failed to connect to TCP stream"));
}

#[test]
fn send_error_is_a_network_error() {
    let mut fetch = connected("example.com", "index.html");
    let mut other = Fetch::new("example.com".to_string(), 80, String::new());
    other.step(Event::Resolved(1));
    other.step(Event::Connected);
    assert_eq!(other.step(Event::SendFailed), network("Failed to send a request to TCP stream"));
    assert_eq!(fetch.phase(), Phase::Receiving);
}

#[test]
fn read_error_drops_what_was_received() {
    let mut fetch = connected("example.com", "index.html");
    assert_eq!(fetch.step(Event::Received(b"partial".to_vec())), Action::Receive);
    assert_eq!(
        fetch.step(Event::ReceiveFailed),
        network("Failed to receive a request from TCP stream")
    );
    let after = fetch.step(Event::Received(Vec::new()));
    assert!(matches!(after, Action::Finish(Err(Error::UnexpectedInput(_)))));
}

#[test]
fn event_out_of_phase_is_unexpected_input() {
    let mut fetch = Fetch::new("example.com".to_string(), 80, String::new());
    let action = fetch.step(Event::Sent);
    assert_eq!(
        action,
        Action::Finish(Err(Error::UnexpectedInput(
            "Event does not fit the phase of the fetch".to_string()
        )))
    );
    assert_eq!(fetch.phase(), Phase::Done);
}

#[test]
fn error_detail_and_response_text() {
    assert_eq!(Error::Network("n".to_string()).detail(), "n");
    assert_eq!(Error::Other("o".to_string()).detail(), "o");
    assert_eq!(Error::InvalidUrl("i".to_string()).detail(), "i");
    assert_eq!(HttpResponse::new("body".to_string()).raw(), "body");
}
